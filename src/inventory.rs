//! The local inventory: which items are installed, read from their manifests.

use vstd::prelude::*;
use crate::json::{Json, JsonValue, parse, parsed_text};
use crate::manifest::{Manifest, ManifestView, decode, decode_manifest};
use crate::text::{decimal_u64, ends_with, has_prefix, has_suffix, parse_decimal, starts_with};

verus! {

broadcast use vstd::std_specs::vec::group_vec_axioms;

/// One locally present item.
#[derive(Debug)]
pub struct InstalledItem {
    pub local_path: String,
    /// Assigned at install time and kept across updates.
    pub barcode: String,
    /// Absent where the item did not come from the catalog.
    pub remote_mod_id: Option<u64>,
    pub remote_file_id: Option<u64>,
    /// Milliseconds since the epoch.
    pub installed_at: u64,
    /// Milliseconds since the epoch.
    pub updated_at: u64,
}

pub struct InstalledItemView {
    pub local_path: Seq<char>,
    pub barcode: Seq<char>,
    pub remote_mod_id: Option<u64>,
    pub remote_file_id: Option<u64>,
    pub installed_at: u64,
    pub updated_at: u64,
}

impl View for InstalledItem {
    type V = InstalledItemView;

    open spec fn view(&self) -> InstalledItemView {
        InstalledItemView {
            local_path: self.local_path@,
            barcode: self.barcode@,
            remote_mod_id: self.remote_mod_id,
            remote_file_id: self.remote_file_id,
            installed_at: self.installed_at,
            updated_at: self.updated_at,
        }
    }
}

impl InstalledItemView {
    /// A remote mod identifier comes with a remote file identifier.
    pub open spec fn wf(self) -> bool {
        self.remote_mod_id is Some <==> self.remote_file_id is Some
    }
}

pub open spec fn items_view(s: Seq<InstalledItem>) -> Seq<InstalledItemView> {
    s.map_values(|i: InstalledItem| i@)
}

/// The item that the manifest at `path` describes; `None` where one of its
/// dates is not a decimal number of milliseconds.
pub open spec fn item_of(path: Seq<char>, m: ManifestView) -> Option<InstalledItemView> {
    let installed = decimal_u64(m.objects.pallet.installed_date);
    let updated = decimal_u64(m.objects.pallet.update_date);
    if installed is Some && updated is Some {
        Some(
            InstalledItemView {
                local_path: path,
                barcode: m.objects.pallet.pallet_barcode,
                remote_mod_id: match m.objects.mod_target {
                    Some(t) => Some(t.mod_id),
                    None => None,
                },
                remote_file_id: match m.objects.mod_target {
                    Some(t) => Some(t.modfile_id),
                    None => None,
                },
                installed_at: installed->0,
                updated_at: updated->0,
            },
        )
    } else {
        None
    }
}

/// The item that a manifest describes.
pub fn installed_item(path: &str, m: &Manifest) -> (r: Option<InstalledItem>)
    ensures
        match r {
            Some(i) => item_of(path@, m@) == Some(i@) && i@.wf(),
            None => item_of(path@, m@) is None,
        },
{
    let installed_at = match parse_decimal(m.objects.pallet.installed_date.as_str()) {
        Some(t) => t,
        None => return None,
    };
    let updated_at = match parse_decimal(m.objects.pallet.update_date.as_str()) {
        Some(t) => t,
        None => return None,
    };
    let (remote_mod_id, remote_file_id) = match &m.objects.mod_target {
        Some(t) => (Some(t.mod_id), Some(t.modfile_id)),
        None => (None, None),
    };
    Some(
        InstalledItem {
            local_path: String::from_str(path),
            barcode: m.objects.pallet.pallet_barcode.clone(),
            remote_mod_id,
            remote_file_id,
            installed_at,
            updated_at,
        },
    )
}

/// Files named `*.manifest` are manifests, except those of the game vendor's
/// reserved `SLZ` namespace.
pub open spec fn is_manifest_name(name: Seq<char>) -> bool {
    has_suffix(name, ".manifest"@) && !has_prefix(name, "SLZ"@)
}

/// Whether a file of the mod directory is a manifest to read.
pub fn is_manifest_file_name(name: &str) -> (r: bool)
    ensures
        r == is_manifest_name(name@),
{
    ends_with(name, ".manifest") && !starts_with(name, "SLZ")
}

/// The positions of the manifest names among `names`, in order.
pub open spec fn manifest_positions(names: Seq<Seq<char>>, n: int) -> Seq<int>
    decreases n,
{
    if n <= 0 {
        Seq::empty()
    } else if is_manifest_name(names[n - 1]) {
        manifest_positions(names, n - 1).push(n - 1)
    } else {
        manifest_positions(names, n - 1)
    }
}

/// The names of the manifests among the names of a directory's files, in order.
pub fn manifest_file_names(names: &Vec<String>) -> (r: Vec<String>)
    ensures
        r@.len() == manifest_positions(crate::catalog::strings_view(names@), names@.len() as int).len(),
        forall|k: int|
            0 <= k < r@.len() ==> #[trigger] r@[k]@ == names@[manifest_positions(
                crate::catalog::strings_view(names@),
                names@.len() as int,
            )[k]]@,
{
    let ghost sv = crate::catalog::strings_view(names@);
    let mut r: Vec<String> = Vec::new();
    let mut i: usize = 0;
    while i < names.len()
        invariant
            sv == crate::catalog::strings_view(names@),
            i <= names.len(),
            r@.len() == manifest_positions(sv, i as int).len(),
            forall|k: int|
                0 <= k < r@.len() ==> #[trigger] r@[k]@ == names@[manifest_positions(
                    sv,
                    i as int,
                )[k]]@,
        decreases names.len() - i,
    {
        assert(sv[i as int] == names@[i as int]@);
        if is_manifest_file_name(names[i].as_str()) {
            r.push(names[i].clone());
        }
        i = i + 1;
    }
    r
}

/// Why the inventory could not be read.
#[derive(Clone, Copy, Debug, PartialEq, Eq, Structural)]
pub enum InventoryError {
    /// The manifest at this position is not JSON, not a record, or one of its
    /// dates is not a timestamp.
    MalformedManifest(usize),
}

/// The item of the manifest document at `path`.
pub open spec fn document_item(path: Seq<char>, doc: JsonValue) -> Option<InstalledItemView> {
    match decode_manifest(doc) {
        Some(m) => item_of(path, m),
        None => None,
    }
}

/// The item of the manifest file at `path` with text `text`.
pub open spec fn text_item(path: Seq<char>, text: Seq<char>) -> Option<InstalledItemView> {
    match parsed_text(text) {
        Some(doc) => document_item(path, doc),
        None => None,
    }
}

/// The item of the manifest document at `path`; `None` where the document is
/// not a record or one of its dates is not a timestamp.
pub fn item_from_document(path: &str, doc: &Json) -> (r: Option<InstalledItem>)
    ensures
        match r {
            Some(i) => document_item(path@, doc@) == Some(i@) && i@.wf(),
            None => document_item(path@, doc@) is None,
        },
{
    match decode(doc) {
        Ok(m) => installed_item(path, &m),
        Err(_) => None,
    }
}

/// Builds the inventory from the manifest files of the mod directory, each
/// given as its path and its text. A manifest that cannot be read fails the
/// whole scan, at the first such position: local state that cannot be read is
/// not to be trusted. Items without a remote identifier are kept.
pub fn scan(entries: &Vec<(String, String)>) -> (r: Result<Vec<InstalledItem>, InventoryError>)
    ensures
        match r {
            Ok(items) => items@.len() == entries@.len() && forall|k: int|
                0 <= k < items@.len() ==> text_item(entries@[k].0@, entries@[k].1@) == Some(
                    #[trigger] items@[k]@,
                ) && items@[k]@.wf(),
            Err(InventoryError::MalformedManifest(k)) => k < entries@.len() && text_item(
                entries@[k as int].0@,
                entries@[k as int].1@,
            ) is None && forall|c: int|
                0 <= c < k ==> #[trigger] text_item(entries@[c].0@, entries@[c].1@) is Some,
        },
{
    let mut items: Vec<InstalledItem> = Vec::new();
    let mut i: usize = 0;
    while i < entries.len()
        invariant
            i <= entries.len(),
            items@.len() == i,
            forall|k: int|
                0 <= k < i ==> text_item(entries@[k].0@, entries@[k].1@) == Some(
                    #[trigger] items@[k]@,
                ) && items@[k]@.wf(),
        decreases entries.len() - i,
    {
        let e = &entries[i];
        assert forall|c: int| 0 <= c < i implies #[trigger] text_item(
            entries@[c].0@,
            entries@[c].1@,
        ) is Some by {
            assert(text_item(entries@[c].0@, entries@[c].1@) == Some(items@[c]@));
        }
        let doc = match parse(e.1.as_str()) {
            Some(d) => d,
            None => return Err(InventoryError::MalformedManifest(i)),
        };
        match item_from_document(e.0.as_str(), &doc) {
            Some(item) => items.push(item),
            None => return Err(InventoryError::MalformedManifest(i)),
        }
        i = i + 1;
    }
    Ok(items)
}

} // verus!
