//! The install pipeline: one install or update of a catalog item, run as a
//! sequence of stages whose outside work (download, unpack, listing, writing,
//! moving) the caller performs.
//!
//! The caller asks [`Install::current_action`] what to do, does it, and hands
//! the result to [`Install::step`], until the action is `Finish`. No manifest
//! and no installed package is touched before the archive has been unpacked
//! into a staging directory (one level below the mod directory) and found to
//! hold one package with exactly two descriptors; the manifest is written
//! before the package is moved into place.

use vstd::prelude::*;
use crate::catalog::{
    RemoteEntry, RemoteEntryView, RemoteFile, RemoteFileView, files_view, normalized_ms, remote_ms,
    strings_view,
};
use crate::manifest::{
    Isa, IsaView, Manifest, ManifestView, ModListing, ModListingView, ModTarget, ModTargetView,
    Object, ObjectView, Pallet, PalletView, Reference, ReferenceView, Root,
};
use crate::inventory::InstalledItemView;
use crate::reconcile::is_stale;
use crate::text::{
    decimal_text, decimal_u64, ends_with, format_decimal, has_suffix, join2, join3,
    lemma_decimal_round_trip,
};

verus! {

broadcast use vstd::std_specs::vec::group_vec_axioms;

/// The directory under which the game expects installed packages.
pub const GAME_MODS_DIR: &'static str = "C:/users/steamuser/AppData/LocalLow/Stress Level Zero/BONELAB/Mods/";

/// The platform whose files an update installs.
pub const PLATFORM: &'static str = "windows";

// ----- Resolving the file -----

/// The file is built for the platform.
pub open spec fn for_platform(f: RemoteFileView) -> bool {
    f.platforms.contains(PLATFORM@)
}

/// The position of the platform file with the highest identifier among the
/// first `n` files; of equal identifiers the later one.
pub open spec fn latest_upto(files: Seq<RemoteFileView>, n: int) -> Option<int>
    decreases n,
{
    if n <= 0 {
        None
    } else {
        let prev = latest_upto(files, n - 1);
        if for_platform(files[n - 1]) && (prev is None || files[prev->0].id <= files[n - 1].id) {
            Some(n - 1)
        } else {
            prev
        }
    }
}

fn is_for_platform(f: &RemoteFile) -> (r: bool)
    ensures
        r == for_platform(f@),
{
    let p = String::from_str(PLATFORM);
    let mut i: usize = 0;
    while i < f.platforms.len()
        invariant
            p@ == PLATFORM@,
            i <= f.platforms.len(),
            forall|k: int| 0 <= k < i ==> f@.platforms[k] != PLATFORM@,
        decreases f.platforms.len() - i,
    {
        if f.platforms[i] == p {
            assert(f@.platforms[i as int] == PLATFORM@);
            return true;
        }
        i = i + 1;
    }
    false
}

/// The position of the newest file for the platform: the highest identifier,
/// as the service numbers files in the order it receives them.
pub fn latest_platform_file(files: &Vec<RemoteFile>) -> (r: Option<usize>)
    ensures
        match r {
            Some(k) => latest_upto(files_view(files@), files@.len() as int) == Some(k as int),
            None => latest_upto(files_view(files@), files@.len() as int) is None,
        },
{
    let ghost fv = files_view(files@);
    let mut best: Option<usize> = None;
    let mut i: usize = 0;
    while i < files.len()
        invariant
            fv == files_view(files@),
            i <= files.len(),
            match best {
                Some(k) => latest_upto(fv, i as int) == Some(k as int) && k < i,
                None => latest_upto(fv, i as int) is None,
            },
        decreases files.len() - i,
    {
        assert(fv[i as int] == files@[i as int]@);
        if is_for_platform(&files[i]) {
            match best {
                None => {
                    best = Some(i);
                },
                Some(k) => {
                    assert(fv[k as int] == files@[k as int]@);
                    if files[k].id <= files[i].id {
                        best = Some(i);
                    }
                },
            }
        }
        i = i + 1;
    }
    best
}

/// The maximality of the chosen file.
pub proof fn lemma_latest_is_highest(files: Seq<RemoteFileView>, n: int)
    requires
        0 <= n <= files.len(),
    ensures
        match latest_upto(files, n) {
            Some(k) => 0 <= k < n && for_platform(files[k]) && forall|c: int|
                0 <= c < n && for_platform(files[c]) ==> files[c].id <= files[k].id,
            None => forall|c: int| 0 <= c < n ==> !for_platform(files[c]),
        },
    decreases n,
{
    if n > 0 {
        lemma_latest_is_highest(files, n - 1);
    }
}

// ----- Locating the descriptors -----

/// A descriptor file of a package.
pub open spec fn is_descriptor(name: Seq<char>) -> bool {
    has_suffix(name, ".json"@)
}

pub open spec fn descriptor_positions(names: Seq<Seq<char>>, n: int) -> Seq<int>
    decreases n,
{
    if n <= 0 {
        Seq::empty()
    } else if is_descriptor(names[n - 1]) {
        descriptor_positions(names, n - 1).push(n - 1)
    } else {
        descriptor_positions(names, n - 1)
    }
}

/// The positions of the pallet descriptor and of the catalog descriptor among
/// the files of a package: there must be exactly two descriptors, and the one
/// whose name ends in `pallet.json` (else the second) is the pallet's.
pub open spec fn descriptors_of(names: Seq<Seq<char>>) -> Option<(int, int)> {
    let p = descriptor_positions(names, names.len() as int);
    if p.len() == 2 {
        if has_suffix(names[p[0]], "pallet.json"@) {
            Some((p[0], p[1]))
        } else {
            Some((p[1], p[0]))
        }
    } else {
        None
    }
}

proof fn lemma_descriptor_positions(names: Seq<Seq<char>>, n: int)
    ensures
        forall|k: int|
            0 <= k < descriptor_positions(names, n).len() ==> 0 <= #[trigger] descriptor_positions(
                names,
                n,
            )[k] < n,
    decreases n,
{
    if n > 0 {
        lemma_descriptor_positions(names, n - 1);
        let prev = descriptor_positions(names, n - 1);
        let cur = descriptor_positions(names, n);
        assert forall|k: int| 0 <= k < cur.len() implies 0 <= #[trigger] cur[k] < n by {
            if k < prev.len() {
                assert(cur[k] == prev[k]);
            }
        }
    }
}

/// Finds the pallet and catalog descriptors among the files of a package.
pub fn locate_descriptors(names: &Vec<String>) -> (r: Option<(usize, usize)>)
    ensures
        match r {
            Some((a, b)) => descriptors_of(strings_view(names@)) == Some((a as int, b as int)),
            None => descriptors_of(strings_view(names@)) is None,
        },
{
    let ghost sv = strings_view(names@);
    let mut found: Vec<usize> = Vec::new();
    let mut i: usize = 0;
    while i < names.len()
        invariant
            sv == strings_view(names@),
            i <= names.len(),
            found@.map_values(|k: usize| k as int) == descriptor_positions(sv, i as int),
        decreases names.len() - i,
    {
        assert(sv[i as int] == names@[i as int]@);
        if ends_with(names[i].as_str(), ".json") {
            found.push(i);
        }
        assert(found@.map_values(|k: usize| k as int) =~= descriptor_positions(sv, i + 1));
        i = i + 1;
    }
    proof {
        lemma_descriptor_positions(sv, sv.len() as int);
    }
    if found.len() != 2 {
        assert(descriptor_positions(sv, sv.len() as int).len() == found@.len());
        return None;
    }
    let a = found[0];
    let b = found[1];
    assert(a as int == descriptor_positions(sv, sv.len() as int)[0]);
    assert(b as int == descriptor_positions(sv, sv.len() as int)[1]);
    assert(sv[a as int] == names@[a as int]@);
    if ends_with(names[a].as_str(), "pallet.json") {
        Some((a, b))
    } else {
        Some((b, a))
    }
}

// ----- The manifest of an installed package -----

pub open spec fn game_path(barcode: Seq<char>, file: Seq<char>) -> Seq<char> {
    GAME_MODS_DIR@ + barcode + "/"@ + file
}

/// The record written for a package: its pallet, its listing (from the catalog
/// entry and the file) and its target (the remote identifiers).
pub open spec fn manifest_for(
    entry: RemoteEntryView,
    file: RemoteFileView,
    barcode: Seq<char>,
    pallet_name: Seq<char>,
    catalog_name: Seq<char>,
    installed_at: u64,
    updated_at: u64,
) -> ManifestView {
    ManifestView {
        version: 2,
        root: ReferenceView { reference: "1"@, type_: "pallet-manifest#0"@ },
        objects: ObjectView {
            pallet: PalletView {
                pallet_barcode: barcode,
                pallet_path: game_path(barcode, pallet_name),
                catalog_path: game_path(barcode, catalog_name),
                version: file.version,
                installed_date: decimal_text(installed_at as nat),
                update_date: decimal_text(updated_at as nat),
                mod_listing: Some(ReferenceView { reference: "2"@, type_: "mod-listing#0"@ }),
                active: true,
                isa: IsaView { type_: "pallet-manifest#0"@ },
            },
            mod_listing: Some(
                ModListingView {
                    barcode: barcode,
                    title: Some(entry.name),
                    description: entry.description,
                    author: Some(entry.author),
                    version: file.version,
                    thumbnail_url: Some(entry.thumbnail_url),
                    targets: seq![
                        ("pc"@, ReferenceView { reference: "3"@, type_: "mod-target-modio#0"@ }),
                    ],
                    isa: IsaView { type_: "mod-listing#0"@ },
                },
            ),
            mod_target: Some(
                ModTargetView {
                    thumbnail_override: None,
                    game_id: entry.game_id,
                    mod_id: entry.mod_id,
                    modfile_id: file.id,
                    isa: IsaView { type_: "mod-target-modio#0"@ },
                },
            ),
        },
    }
}

fn text(s: &str) -> (r: String)
    ensures
        r@ == s@,
{
    String::from_str(s)
}

fn opt_text(s: &Option<String>) -> (r: Option<String>)
    ensures
        crate::manifest::opt_view(r) == crate::manifest::opt_view(*s),
{
    match s {
        Some(t) => Some(t.clone()),
        None => None,
    }
}

/// Builds the record of a package installed from `entry` and `file`.
pub fn make_manifest(
    entry: &RemoteEntry,
    file: &RemoteFile,
    barcode: &str,
    pallet_name: &str,
    catalog_name: &str,
    installed_at: u64,
    updated_at: u64,
) -> (m: Manifest)
    ensures
        m@ == manifest_for(
            entry@,
            file@,
            barcode@,
            pallet_name@,
            catalog_name@,
            installed_at,
            updated_at,
        ),
{
    let base = join2(GAME_MODS_DIR, barcode);
    let pallet_path = join3(base.as_str(), "/", pallet_name);
    let catalog_path = join3(base.as_str(), "/", catalog_name);
    let mut targets: Vec<(String, Reference)> = Vec::new();
    targets.push((text("pc"), Reference { reference: text("3"), type_: text("mod-target-modio#0") }));
    let m = Manifest {
        version: 2,
        root: Root { reference: text("1"), type_: text("pallet-manifest#0") },
        objects: Object {
            pallet: Pallet {
                pallet_barcode: text(barcode),
                pallet_path,
                catalog_path,
                version: opt_text(&file.version),
                installed_date: format_decimal(installed_at),
                update_date: format_decimal(updated_at),
                mod_listing: Some(
                    Reference { reference: text("2"), type_: text("mod-listing#0") },
                ),
                active: true,
                isa: Isa { type_: text("pallet-manifest#0") },
            },
            mod_listing: Some(
                ModListing {
                    barcode: text(barcode),
                    title: Some(entry.name.clone()),
                    description: opt_text(&entry.description),
                    author: Some(entry.author.clone()),
                    version: opt_text(&file.version),
                    thumbnail_url: Some(entry.thumbnail_url.clone()),
                    targets,
                    isa: Isa { type_: text("mod-listing#0") },
                },
            ),
            mod_target: Some(
                ModTarget {
                    thumbnail_override: None,
                    game_id: entry.game_id,
                    mod_id: entry.mod_id,
                    modfile_id: file.id,
                    isa: Isa { type_: text("mod-target-modio#0") },
                },
            ),
        },
    };
    assert(m@.objects.mod_listing->0.targets =~= seq![
        ("pc"@, ReferenceView { reference: "3"@, type_: "mod-target-modio#0"@ }),
    ]);
    m
}

/// An update moves an item forward: the record it writes keeps the install
/// time, and its update time, read back, is strictly later than the item's.
pub proof fn lemma_update_moves_forward(
    item: InstalledItemView,
    entry: RemoteEntryView,
    file: RemoteFileView,
    barcode: Seq<char>,
    pallet_name: Seq<char>,
    catalog_name: Seq<char>,
)
    requires
        is_stale(item, entry),
    ensures
        ({
            let m = manifest_for(
                entry,
                file,
                barcode,
                pallet_name,
                catalog_name,
                item.installed_at,
                remote_ms(entry.updated_secs),
            );
            &&& decimal_u64(m.objects.pallet.installed_date) == Some(item.installed_at)
            &&& decimal_u64(m.objects.pallet.update_date) == Some(remote_ms(entry.updated_secs))
            &&& item.updated_at < remote_ms(entry.updated_secs)
        }),
{
    lemma_decimal_round_trip(item.installed_at as nat);
    lemma_decimal_round_trip(remote_ms(entry.updated_secs) as nat);
}

// ----- The stages -----

/// Why an install failed.
#[derive(Clone, Copy, Debug, PartialEq, Eq, Structural)]
pub enum InstallError {
    DownloadFailed,
    ExtractFailed,
    /// The unpacked archive is not one directory holding exactly two descriptors.
    UnexpectedArchiveLayout,
    ManifestWriteFailed,
    PublishFailed,
}

/// Where an install stands: the stage whose action is in flight, or the end.
#[derive(Clone, Copy, Debug, PartialEq, Eq, Structural)]
pub enum Stage {
    Download,
    Extract,
    ListStaging,
    ListPackage,
    WriteManifest,
    Publish,
    RemoveStaging,
    Done,
    Failed(InstallError),
}

/// The stage that follows `s` once its action has succeeded (`ok`) or failed.
/// Removing the emptied staging directory cannot fail the install; the ends
/// stay as they are.
pub open spec fn advance(s: Stage, ok: bool) -> Stage {
    match s {
        Stage::Download => if ok {
            Stage::Extract
        } else {
            Stage::Failed(InstallError::DownloadFailed)
        },
        Stage::Extract => if ok {
            Stage::ListStaging
        } else {
            Stage::Failed(InstallError::ExtractFailed)
        },
        Stage::ListStaging => if ok {
            Stage::ListPackage
        } else {
            Stage::Failed(InstallError::UnexpectedArchiveLayout)
        },
        Stage::ListPackage => if ok {
            Stage::WriteManifest
        } else {
            Stage::Failed(InstallError::UnexpectedArchiveLayout)
        },
        Stage::WriteManifest => if ok {
            Stage::Publish
        } else {
            Stage::Failed(InstallError::ManifestWriteFailed)
        },
        Stage::Publish => if ok {
            Stage::RemoveStaging
        } else {
            Stage::Failed(InstallError::PublishFailed)
        },
        Stage::RemoveStaging => Stage::Done,
        Stage::Done => Stage::Done,
        Stage::Failed(e) => Stage::Failed(e),
    }
}

/// The stages whose action writes into the mod directory itself.
pub open spec fn touches_mod_dir(s: Stage) -> bool {
    s == Stage::WriteManifest || s == Stage::Publish
}

/// The stage reached from `s` through the outcomes `oks`, in order.
pub open spec fn run(s: Stage, oks: Seq<bool>) -> Stage
    decreases oks.len(),
{
    if oks.len() == 0 {
        s
    } else {
        run(advance(s, oks[0]), oks.drop_first())
    }
}

/// Some stage on the way from `s` through `oks`, `s` and the last included,
/// writes into the mod directory.
pub open spec fn run_touches_mod_dir(s: Stage, oks: Seq<bool>) -> bool
    decreases oks.len(),
{
    touches_mod_dir(s) || (oks.len() > 0 && run_touches_mod_dir(advance(s, oks[0]), oks.drop_first()))
}

/// The stages at or after the manifest write.
pub open spec fn past_staging(s: Stage) -> bool {
    match s {
        Stage::WriteManifest | Stage::Publish | Stage::RemoveStaging | Stage::Done => true,
        Stage::Failed(e) => e == InstallError::ManifestWriteFailed || e == InstallError::PublishFailed,
        _ => false,
    }
}

proof fn lemma_past_staging_stays(s: Stage, oks: Seq<bool>)
    requires
        past_staging(s),
    ensures
        past_staging(run(s, oks)),
    decreases oks.len(),
{
    if oks.len() > 0 {
        lemma_past_staging_stays(advance(s, oks[0]), oks.drop_first());
    }
}

proof fn lemma_touch_is_past_staging(s: Stage, oks: Seq<bool>)
    requires
        run_touches_mod_dir(s, oks),
    ensures
        past_staging(run(s, oks)),
    decreases oks.len(),
{
    if touches_mod_dir(s) {
        lemma_past_staging_stays(s, oks);
    } else {
        lemma_touch_is_past_staging(advance(s, oks[0]), oks.drop_first());
    }
}

/// An install that fails in the download, in unpacking, or on the layout of
/// the archive has written nothing into the mod directory: whatever was
/// installed there before is as it was.
pub proof fn lemma_early_failure_leaves_mod_dir(oks: Seq<bool>)
    requires
        run(Stage::Download, oks) == Stage::Failed(InstallError::DownloadFailed) || run(
            Stage::Download,
            oks,
        ) == Stage::Failed(InstallError::ExtractFailed) || run(Stage::Download, oks)
            == Stage::Failed(InstallError::UnexpectedArchiveLayout),
    ensures
        !run_touches_mod_dir(Stage::Download, oks),
{
    if run_touches_mod_dir(Stage::Download, oks) {
        lemma_touch_is_past_staging(Stage::Download, oks);
    }
}

/// The package is moved into place only right after its manifest was written.
pub proof fn lemma_manifest_before_publish(s: Stage, ok: bool)
    requires
        advance(s, ok) == Stage::Publish,
    ensures
        s == Stage::WriteManifest,
        ok,
{
}

// ----- The state machine -----

/// The result of the caller's work on the current action.
#[derive(Debug)]
pub enum Event {
    Succeeded,
    Failed,
    /// The names in a listed directory.
    Listed(Vec<String>),
}

/// Whether `e` reports success of the action of stage `s`: the staging
/// directory must hold exactly one entry, the package exactly two descriptors.
pub open spec fn event_ok(s: Stage, e: Event) -> bool {
    match s {
        Stage::ListStaging => match e {
            Event::Listed(names) => names@.len() == 1,
            _ => false,
        },
        Stage::ListPackage => match e {
            Event::Listed(names) => descriptors_of(strings_view(names@)) is Some,
            _ => false,
        },
        _ => e is Succeeded,
    }
}

/// How an install ended.
#[derive(Clone, Copy, Debug, PartialEq, Eq, Structural)]
pub enum Outcome {
    Done,
    Failed(InstallError),
}

/// What the caller is to do next.
#[derive(Debug)]
pub enum Action {
    /// Download the file into `archive`, under the retry controller.
    Download { mod_id: u64, file_id: u64, archive: String },
    /// Unpack `archive` into the directory `staging`.
    Extract { archive: String, staging: String },
    /// List the names in `dir`.
    ListStaging { dir: String },
    /// List the names of the files in `dir`.
    ListPackage { dir: String },
    /// Write the JSON document of `manifest` to `path`.
    WriteManifest { path: String, manifest: Manifest },
    /// Move the directory `from` to `to`, replacing what is there.
    Publish { from: String, to: String },
    /// Remove the directory `dir`, which is empty.
    RemoveStaging { dir: String },
    /// Nothing more: the install is over.
    Finish(Outcome),
}

/// One install or update in progress.
#[derive(Debug)]
pub struct Install {
    pub stage: Stage,
    pub entry: RemoteEntry,
    pub file: RemoteFile,
    pub installed_at: u64,
    pub updated_at: u64,
    pub mod_root: String,
    pub cache_dir: String,
    /// Known from the listing of the staging directory on.
    pub barcode: String,
    /// Known from the listing of the package on.
    pub pallet_name: String,
    pub catalog_name: String,
}

pub open spec fn archive_path(cache_dir: Seq<char>, name: Seq<char>) -> Seq<char> {
    cache_dir + "/"@ + name + ".zip"@
}

pub open spec fn staging_path(mod_root: Seq<char>, name: Seq<char>) -> Seq<char> {
    mod_root + "/"@ + name
}

impl Install {
    /// The action that stage `self.stage` asks of the caller.
    pub open spec fn action_spec(&self, a: Action) -> bool {
        let staging = staging_path(self.mod_root@, self.entry.name@);
        match self.stage {
            Stage::Download => a matches Action::Download { mod_id, file_id, archive } && mod_id
                == self.entry.mod_id && file_id == self.file.id && archive@ == archive_path(
                self.cache_dir@,
                self.entry.name@,
            ),
            Stage::Extract => a matches Action::Extract { archive, staging: st } && archive@
                == archive_path(self.cache_dir@, self.entry.name@) && st@ == staging,
            Stage::ListStaging => a matches Action::ListStaging { dir } && dir@ == staging,
            Stage::ListPackage => a matches Action::ListPackage { dir } && dir@ == staging + "/"@
                + self.barcode@,
            Stage::WriteManifest => a matches Action::WriteManifest { path, manifest } && path@
                == self.mod_root@ + "/"@ + self.barcode@ + ".manifest"@ && manifest@
                == manifest_for(
                self.entry@,
                self.file@,
                self.barcode@,
                self.pallet_name@,
                self.catalog_name@,
                self.installed_at,
                self.updated_at,
            ),
            Stage::Publish => a matches Action::Publish { from, to } && from@ == staging + "/"@
                + self.barcode@ && to@ == self.mod_root@ + "/"@ + self.barcode@,
            Stage::RemoveStaging => a matches Action::RemoveStaging { dir } && dir@ == staging,
            Stage::Done => a == Action::Finish(Outcome::Done),
            Stage::Failed(e) => a == Action::Finish(Outcome::Failed(e)),
        }
    }

    /// A fresh install of `entry` at time `now_ms`: its attached file, with
    /// both dates set to now. `None` (the install is skipped) where the entry
    /// has no file.
    pub fn fresh(entry: RemoteEntry, now_ms: u64, mod_root: String, cache_dir: String) -> (r:
        Option<Install>)
        ensures
            match r {
                Some(i) => {
                    &&& entry.file matches Some(f) && i.file@ == f@
                    &&& i.stage == Stage::Download
                    &&& i.entry@ == entry@
                    &&& i.installed_at == now_ms
                    &&& i.updated_at == now_ms
                    &&& i.mod_root@ == mod_root@
                    &&& i.cache_dir@ == cache_dir@
                },
                None => entry.file is None,
            },
    {
        let file = match &entry.file {
            Some(f) => f.duplicate(),
            None => return None,
        };
        Some(
            Install {
                stage: Stage::Download,
                entry,
                file,
                installed_at: now_ms,
                updated_at: now_ms,
                mod_root,
                cache_dir,
                barcode: String::new(),
                pallet_name: String::new(),
                catalog_name: String::new(),
            },
        )
    }

    /// An update of an installed item from `entry`, given the files of the
    /// entry: the newest file for the platform. The install date is kept, and
    /// the update date becomes the entry's update time in milliseconds.
    /// `None` (the update is skipped) where no file is for the platform.
    pub fn update(
        entry: RemoteEntry,
        files: Vec<RemoteFile>,
        installed_at: u64,
        mod_root: String,
        cache_dir: String,
    ) -> (r: Option<Install>)
        ensures
            match r {
                Some(i) => {
                    &&& latest_upto(files_view(files@), files@.len() as int) matches Some(k)
                        && i.file@ == files@[k]@
                    &&& i.stage == Stage::Download
                    &&& i.entry@ == entry@
                    &&& i.installed_at == installed_at
                    &&& i.updated_at == remote_ms(entry.updated_secs)
                    &&& i.mod_root@ == mod_root@
                    &&& i.cache_dir@ == cache_dir@
                },
                None => latest_upto(files_view(files@), files@.len() as int) is None,
            },
    {
        let k = match latest_platform_file(&files) {
            Some(k) => k,
            None => return None,
        };
        proof {
            lemma_latest_is_highest(files_view(files@), files@.len() as int);
        }
        let file = files[k].duplicate();
        let updated_at = normalized_ms(entry.updated_secs);
        Some(
            Install {
                stage: Stage::Download,
                entry,
                file,
                installed_at,
                updated_at,
                mod_root,
                cache_dir,
                barcode: String::new(),
                pallet_name: String::new(),
                catalog_name: String::new(),
            },
        )
    }

    /// What the caller is to do at the current stage.
    pub fn current_action(&self) -> (a: Action)
        ensures
            self.action_spec(a),
    {
        match self.stage {
            Stage::Download => Action::Download {
                mod_id: self.entry.mod_id,
                file_id: self.file.id,
                archive: self.archive(),
            },
            Stage::Extract => Action::Extract { archive: self.archive(), staging: self.staging() },
            Stage::ListStaging => Action::ListStaging { dir: self.staging() },
            Stage::ListPackage => Action::ListPackage { dir: self.package() },
            Stage::WriteManifest => {
                let base = join3(self.mod_root.as_str(), "/", self.barcode.as_str());
                Action::WriteManifest {
                    path: join2(base.as_str(), ".manifest"),
                    manifest: make_manifest(
                        &self.entry,
                        &self.file,
                        self.barcode.as_str(),
                        self.pallet_name.as_str(),
                        self.catalog_name.as_str(),
                        self.installed_at,
                        self.updated_at,
                    ),
                }
            },
            Stage::Publish => Action::Publish {
                from: self.package(),
                to: join3(self.mod_root.as_str(), "/", self.barcode.as_str()),
            },
            Stage::RemoveStaging => Action::RemoveStaging { dir: self.staging() },
            Stage::Done => Action::Finish(Outcome::Done),
            Stage::Failed(e) => Action::Finish(Outcome::Failed(e)),
        }
    }

    fn archive(&self) -> (r: String)
        ensures
            r@ == archive_path(self.cache_dir@, self.entry.name@),
    {
        let base = join3(self.cache_dir.as_str(), "/", self.entry.name.as_str());
        join2(base.as_str(), ".zip")
    }

    fn staging(&self) -> (r: String)
        ensures
            r@ == staging_path(self.mod_root@, self.entry.name@),
    {
        join3(self.mod_root.as_str(), "/", self.entry.name.as_str())
    }

    fn package(&self) -> (r: String)
        ensures
            r@ == staging_path(self.mod_root@, self.entry.name@) + "/"@ + self.barcode@,
    {
        let staging = self.staging();
        join3(staging.as_str(), "/", self.barcode.as_str())
    }

    /// Takes in the result of the current action and moves to the next stage.
    /// A listing of the staging directory names the package (the barcode); a
    /// listing of the package names the two descriptors.
    pub fn step(&mut self, event: Event)
        ensures
            final(self).stage == advance(old(self).stage, event_ok(old(self).stage, event)),
            final(self).entry == old(self).entry,
            final(self).file == old(self).file,
            final(self).installed_at == old(self).installed_at,
            final(self).updated_at == old(self).updated_at,
            final(self).mod_root == old(self).mod_root,
            final(self).cache_dir == old(self).cache_dir,
            if old(self).stage == Stage::ListStaging && event_ok(old(self).stage, event) {
                event matches Event::Listed(names) && final(self).barcode@ == names@[0]@
            } else {
                final(self).barcode == old(self).barcode
            },
            if old(self).stage == Stage::ListPackage && event_ok(old(self).stage, event) {
                event matches Event::Listed(names) && descriptors_of(strings_view(names@)) matches Some(
                    (p, c),
                ) && final(self).pallet_name@ == names@[p]@ && final(self).catalog_name@
                    == names@[c]@
            } else {
                final(self).pallet_name == old(self).pallet_name && final(self).catalog_name
                    == old(self).catalog_name
            },
    {
        let succeeded = match &event {
            Event::Succeeded => true,
            _ => false,
        };
        match self.stage {
            Stage::Download => {
                self.stage = if succeeded {
                    Stage::Extract
                } else {
                    Stage::Failed(InstallError::DownloadFailed)
                };
            },
            Stage::Extract => {
                self.stage = if succeeded {
                    Stage::ListStaging
                } else {
                    Stage::Failed(InstallError::ExtractFailed)
                };
            },
            Stage::ListStaging => {
                let mut ok = false;
                if let Event::Listed(names) = &event {
                    if names.len() == 1 {
                        self.barcode = names[0].clone();
                        ok = true;
                    }
                }
                self.stage = if ok {
                    Stage::ListPackage
                } else {
                    Stage::Failed(InstallError::UnexpectedArchiveLayout)
                };
            },
            Stage::ListPackage => {
                let mut ok = false;
                if let Event::Listed(names) = &event {
                    if let Some((p, c)) = locate_descriptors(names) {
                        proof {
                            lemma_descriptor_positions(
                                strings_view(names@),
                                names@.len() as int,
                            );
                        }
                        assert(p < names.len() && c < names.len());
                        self.pallet_name = names[p].clone();
                        self.catalog_name = names[c].clone();
                        ok = true;
                    }
                }
                self.stage = if ok {
                    Stage::WriteManifest
                } else {
                    Stage::Failed(InstallError::UnexpectedArchiveLayout)
                };
            },
            Stage::WriteManifest => {
                self.stage = if succeeded {
                    Stage::Publish
                } else {
                    Stage::Failed(InstallError::ManifestWriteFailed)
                };
            },
            Stage::Publish => {
                self.stage = if succeeded {
                    Stage::RemoveStaging
                } else {
                    Stage::Failed(InstallError::PublishFailed)
                };
            },
            Stage::RemoveStaging => {
                self.stage = Stage::Done;
            },
            Stage::Done => {},
            Stage::Failed(_) => {},
        }
    }
}

} // verus!
