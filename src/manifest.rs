//! Manifest records: one per installed item, written beside its content as
//! `<barcode>.manifest`.
//!
//! A record is a small object graph. A root index names the pallet object;
//! the pallet, the optional listing and the optional target stand under the
//! fixed keys `"1"`, `"2"` and `"3"` of `objects`, and refer to each other by
//! those keys.

use vstd::prelude::*;
use crate::json::{
    Json, JsonValue, get_member, json_view, lemma_lookup_at, lemma_obj_view, lookup, member,
    members_view, object, opt_string, parse, parsed_text, pretty_text, render,
};
use crate::text::{decimal_text, decimal_u64, format_decimal, lemma_decimal_round_trip, parse_decimal};

verus! {

broadcast use vstd::std_specs::vec::group_vec_axioms;

/// A typed marker: `{"type": ...}`.
#[derive(Debug)]
pub struct Isa {
    pub type_: String,
}

/// A typed reference to another object of the record: `{"ref": ..., "type": ...}`.
#[derive(Debug)]
pub struct Reference {
    pub reference: String,
    pub type_: String,
}

/// The root index of a record.
#[derive(Debug)]
pub struct Root {
    pub reference: String,
    pub type_: String,
}

/// Where an item is installed, its version and whether it is active.
#[derive(Debug)]
pub struct Pallet {
    pub pallet_barcode: String,
    pub pallet_path: String,
    pub catalog_path: String,
    pub version: Option<String>,
    pub installed_date: String,
    pub update_date: String,
    pub mod_listing: Option<Reference>,
    pub active: bool,
    pub isa: Isa,
}

/// Display metadata of an item and its platform targets, by platform name.
#[derive(Debug)]
pub struct ModListing {
    pub barcode: String,
    pub title: Option<String>,
    pub description: Option<String>,
    pub author: Option<String>,
    pub version: Option<String>,
    pub thumbnail_url: Option<String>,
    pub targets: Vec<(String, Reference)>,
    pub isa: Isa,
}

/// The remote identifiers of an item that came from the catalog.
#[derive(Debug)]
pub struct ModTarget {
    pub thumbnail_override: Option<String>,
    pub game_id: u64,
    pub mod_id: u64,
    pub modfile_id: u64,
    pub isa: Isa,
}

/// The three addressable objects of a record.
#[derive(Debug)]
pub struct Object {
    pub pallet: Pallet,
    pub mod_listing: Option<ModListing>,
    pub mod_target: Option<ModTarget>,
}

/// A manifest record.
#[derive(Debug)]
pub struct Manifest {
    pub version: u64,
    pub root: Root,
    pub objects: Object,
}

pub struct IsaView {
    pub type_: Seq<char>,
}

pub struct ReferenceView {
    pub reference: Seq<char>,
    pub type_: Seq<char>,
}

pub struct PalletView {
    pub pallet_barcode: Seq<char>,
    pub pallet_path: Seq<char>,
    pub catalog_path: Seq<char>,
    pub version: Option<Seq<char>>,
    pub installed_date: Seq<char>,
    pub update_date: Seq<char>,
    pub mod_listing: Option<ReferenceView>,
    pub active: bool,
    pub isa: IsaView,
}

pub struct ModListingView {
    pub barcode: Seq<char>,
    pub title: Option<Seq<char>>,
    pub description: Option<Seq<char>>,
    pub author: Option<Seq<char>>,
    pub version: Option<Seq<char>>,
    pub thumbnail_url: Option<Seq<char>>,
    pub targets: Seq<(Seq<char>, ReferenceView)>,
    pub isa: IsaView,
}

pub struct ModTargetView {
    pub thumbnail_override: Option<Seq<char>>,
    pub game_id: u64,
    pub mod_id: u64,
    pub modfile_id: u64,
    pub isa: IsaView,
}

pub struct ObjectView {
    pub pallet: PalletView,
    pub mod_listing: Option<ModListingView>,
    pub mod_target: Option<ModTargetView>,
}

pub struct ManifestView {
    pub version: u64,
    pub root: ReferenceView,
    pub objects: ObjectView,
}

pub open spec fn opt_view(o: Option<String>) -> Option<Seq<char>> {
    match o {
        Some(s) => Some(s@),
        None => None,
    }
}

impl View for Isa {
    type V = IsaView;

    open spec fn view(&self) -> IsaView {
        IsaView { type_: self.type_@ }
    }
}

impl View for Reference {
    type V = ReferenceView;

    open spec fn view(&self) -> ReferenceView {
        ReferenceView { reference: self.reference@, type_: self.type_@ }
    }
}

impl View for Root {
    type V = ReferenceView;

    open spec fn view(&self) -> ReferenceView {
        ReferenceView { reference: self.reference@, type_: self.type_@ }
    }
}

pub open spec fn opt_reference_view(o: Option<Reference>) -> Option<ReferenceView> {
    match o {
        Some(r) => Some(r@),
        None => None,
    }
}

impl View for Pallet {
    type V = PalletView;

    open spec fn view(&self) -> PalletView {
        PalletView {
            pallet_barcode: self.pallet_barcode@,
            pallet_path: self.pallet_path@,
            catalog_path: self.catalog_path@,
            version: opt_view(self.version),
            installed_date: self.installed_date@,
            update_date: self.update_date@,
            mod_listing: opt_reference_view(self.mod_listing),
            active: self.active,
            isa: self.isa@,
        }
    }
}

pub open spec fn targets_view(t: Seq<(String, Reference)>) -> Seq<(Seq<char>, ReferenceView)> {
    t.map_values(|e: (String, Reference)| (e.0@, e.1@))
}

impl View for ModListing {
    type V = ModListingView;

    open spec fn view(&self) -> ModListingView {
        ModListingView {
            barcode: self.barcode@,
            title: opt_view(self.title),
            description: opt_view(self.description),
            author: opt_view(self.author),
            version: opt_view(self.version),
            thumbnail_url: opt_view(self.thumbnail_url),
            targets: targets_view(self.targets@),
            isa: self.isa@,
        }
    }
}

impl View for ModTarget {
    type V = ModTargetView;

    open spec fn view(&self) -> ModTargetView {
        ModTargetView {
            thumbnail_override: opt_view(self.thumbnail_override),
            game_id: self.game_id,
            mod_id: self.mod_id,
            modfile_id: self.modfile_id,
            isa: self.isa@,
        }
    }
}

impl View for Object {
    type V = ObjectView;

    open spec fn view(&self) -> ObjectView {
        ObjectView {
            pallet: self.pallet@,
            mod_listing: match self.mod_listing {
                Some(l) => Some(l@),
                None => None,
            },
            mod_target: match self.mod_target {
                Some(t) => Some(t@),
                None => None,
            },
        }
    }
}

impl View for Manifest {
    type V = ManifestView;

    open spec fn view(&self) -> ManifestView {
        ManifestView { version: self.version, root: self.root@, objects: self.objects@ }
    }
}

// ----- Encoding -----

pub open spec fn opt_str_json(o: Option<Seq<char>>) -> JsonValue {
    match o {
        Some(s) => JsonValue::Str(s),
        None => JsonValue::Null,
    }
}

pub open spec fn isa_json(i: IsaView) -> JsonValue {
    JsonValue::Obj(seq![("type"@, JsonValue::Str(i.type_))])
}

pub open spec fn reference_json(r: ReferenceView) -> JsonValue {
    JsonValue::Obj(seq![("ref"@, JsonValue::Str(r.reference)), ("type"@, JsonValue::Str(r.type_))])
}

pub open spec fn opt_reference_json(o: Option<ReferenceView>) -> JsonValue {
    match o {
        Some(r) => reference_json(r),
        None => JsonValue::Null,
    }
}

pub open spec fn pallet_json(p: PalletView) -> JsonValue {
    JsonValue::Obj(
        seq![
            ("palletBarcode"@, JsonValue::Str(p.pallet_barcode)),
            ("palletPath"@, JsonValue::Str(p.pallet_path)),
            ("catalogPath"@, JsonValue::Str(p.catalog_path)),
            ("version"@, opt_str_json(p.version)),
            ("installedDate"@, JsonValue::Str(p.installed_date)),
            ("updateDate"@, JsonValue::Str(p.update_date)),
            ("modListing"@, opt_reference_json(p.mod_listing)),
            ("active"@, JsonValue::Bool(p.active)),
            ("isa"@, isa_json(p.isa)),
        ],
    )
}

pub open spec fn targets_json(t: Seq<(Seq<char>, ReferenceView)>) -> JsonValue {
    JsonValue::Obj(t.map_values(|e: (Seq<char>, ReferenceView)| (e.0, reference_json(e.1))))
}

pub open spec fn listing_json(l: ModListingView) -> JsonValue {
    JsonValue::Obj(
        seq![
            ("barcode"@, JsonValue::Str(l.barcode)),
            ("title"@, opt_str_json(l.title)),
            ("description"@, opt_str_json(l.description)),
            ("author"@, opt_str_json(l.author)),
            ("version"@, opt_str_json(l.version)),
            ("thumbnailUrl"@, opt_str_json(l.thumbnail_url)),
            ("targets"@, targets_json(l.targets)),
            ("isa"@, isa_json(l.isa)),
        ],
    )
}

pub open spec fn target_json(t: ModTargetView) -> JsonValue {
    JsonValue::Obj(
        seq![
            ("thumbnailOverride"@, opt_str_json(t.thumbnail_override)),
            ("gameId"@, JsonValue::Num(decimal_text(t.game_id as nat))),
            ("modId"@, JsonValue::Num(decimal_text(t.mod_id as nat))),
            ("modfileId"@, JsonValue::Num(decimal_text(t.modfile_id as nat))),
            ("isa"@, isa_json(t.isa)),
        ],
    )
}

pub open spec fn objects_json(o: ObjectView) -> JsonValue {
    JsonValue::Obj(
        seq![
            ("1"@, pallet_json(o.pallet)),
            ("2"@, match o.mod_listing {
                Some(l) => listing_json(l),
                None => JsonValue::Null,
            }),
            ("3"@, match o.mod_target {
                Some(t) => target_json(t),
                None => JsonValue::Null,
            }),
        ],
    )
}

/// The JSON document of a record. Absent sub-objects are written as `null`.
pub open spec fn manifest_json(m: ManifestView) -> JsonValue {
    JsonValue::Obj(
        seq![
            ("version"@, JsonValue::Num(decimal_text(m.version as nat))),
            ("root"@, reference_json(m.root)),
            ("objects"@, objects_json(m.objects)),
        ],
    )
}

fn pair(key: &str, value: Json) -> (r: (String, Json))
    ensures
        r.0@ == key@,
        r.1 == value,
{
    (String::from_str(key), value)
}

fn encode_isa(i: &Isa) -> (r: Json)
    ensures
        r@ == isa_json(i@),
{
    let mut v: Vec<(String, Json)> = Vec::new();
    v.push(pair("type", Json::Str(i.type_.clone())));
    let r = object(v);
    assert(members_view(v@) =~= seq![("type"@, JsonValue::Str(i.type_@))]);
    r
}

fn encode_reference(reference: &String, type_: &String) -> (r: Json)
    ensures
        r@ == reference_json(ReferenceView { reference: reference@, type_: type_@ }),
{
    let mut v: Vec<(String, Json)> = Vec::new();
    v.push(pair("ref", Json::Str(reference.clone())));
    v.push(pair("type", Json::Str(type_.clone())));
    let r = object(v);
    assert(members_view(v@) =~= seq![
        ("ref"@, JsonValue::Str(reference@)),
        ("type"@, JsonValue::Str(type_@)),
    ]);
    r
}

fn encode_opt_reference(o: &Option<Reference>) -> (r: Json)
    ensures
        r@ == opt_reference_json(opt_reference_view(*o)),
{
    match o {
        Some(x) => encode_reference(&x.reference, &x.type_),
        None => Json::Null,
    }
}

fn encode_pallet(p: &Pallet) -> (r: Json)
    ensures
        r@ == pallet_json(p@),
{
    let mut v: Vec<(String, Json)> = Vec::new();
    v.push(pair("palletBarcode", Json::Str(p.pallet_barcode.clone())));
    v.push(pair("palletPath", Json::Str(p.pallet_path.clone())));
    v.push(pair("catalogPath", Json::Str(p.catalog_path.clone())));
    v.push(pair("version", opt_string(&p.version)));
    v.push(pair("installedDate", Json::Str(p.installed_date.clone())));
    v.push(pair("updateDate", Json::Str(p.update_date.clone())));
    v.push(pair("modListing", encode_opt_reference(&p.mod_listing)));
    v.push(pair("active", Json::Bool(p.active)));
    v.push(pair("isa", encode_isa(&p.isa)));
    let r = object(v);
    assert(members_view(v@) =~= match pallet_json(p@) {
        JsonValue::Obj(s) => s,
        _ => Seq::empty(),
    });
    r
}

fn encode_targets(t: &Vec<(String, Reference)>) -> (r: Json)
    ensures
        r@ == targets_json(targets_view(t@)),
{
    let mut v: Vec<(String, Json)> = Vec::new();
    let mut i: usize = 0;
    while i < t.len()
        invariant
            i <= t.len(),
            v.len() == i,
            forall|k: int|
                0 <= k < i ==> #[trigger] members_view(v@)[k] == (t@[k].0@, reference_json(
                    t@[k].1@,
                )),
        decreases t.len() - i,
    {
        let e = &t[i];
        let x = encode_reference(&e.1.reference, &e.1.type_);
        let ghost before = v@;
        v.push((e.0.clone(), x));
        proof {
            assert forall|k: int| 0 <= k < i + 1 implies #[trigger] members_view(v@)[k] == (
                t@[k].0@,
                reference_json(t@[k].1@),
            ) by {
                if k < i {
                    assert(v@[k] == before[k]);
                    assert(members_view(before)[k] == (t@[k].0@, reference_json(t@[k].1@)));
                } else {
                    assert(v@[k].0@ == t@[k].0@);
                    assert(json_view(v@[k].1) == x@);
                }
            }
        }
        i = i + 1;
    }
    let r = object(v);
    assert(members_view(v@) =~= targets_view(t@).map_values(
        |e: (Seq<char>, ReferenceView)| (e.0, reference_json(e.1)),
    ));
    r
}

fn encode_listing(l: &ModListing) -> (r: Json)
    ensures
        r@ == listing_json(l@),
{
    let mut v: Vec<(String, Json)> = Vec::new();
    v.push(pair("barcode", Json::Str(l.barcode.clone())));
    v.push(pair("title", opt_string(&l.title)));
    v.push(pair("description", opt_string(&l.description)));
    v.push(pair("author", opt_string(&l.author)));
    v.push(pair("version", opt_string(&l.version)));
    v.push(pair("thumbnailUrl", opt_string(&l.thumbnail_url)));
    v.push(pair("targets", encode_targets(&l.targets)));
    v.push(pair("isa", encode_isa(&l.isa)));
    let r = object(v);
    assert(members_view(v@) =~= match listing_json(l@) {
        JsonValue::Obj(s) => s,
        _ => Seq::empty(),
    });
    r
}

fn encode_target(t: &ModTarget) -> (r: Json)
    ensures
        r@ == target_json(t@),
{
    let mut v: Vec<(String, Json)> = Vec::new();
    v.push(pair("thumbnailOverride", opt_string(&t.thumbnail_override)));
    v.push(pair("gameId", Json::Num(format_decimal(t.game_id))));
    v.push(pair("modId", Json::Num(format_decimal(t.mod_id))));
    v.push(pair("modfileId", Json::Num(format_decimal(t.modfile_id))));
    v.push(pair("isa", encode_isa(&t.isa)));
    let r = object(v);
    assert(members_view(v@) =~= match target_json(t@) {
        JsonValue::Obj(s) => s,
        _ => Seq::empty(),
    });
    r
}

fn encode_objects(o: &Object) -> (r: Json)
    ensures
        r@ == objects_json(o@),
{
    let mut v: Vec<(String, Json)> = Vec::new();
    v.push(pair("1", encode_pallet(&o.pallet)));
    let listing = match &o.mod_listing {
        Some(l) => encode_listing(l),
        None => Json::Null,
    };
    v.push(pair("2", listing));
    let target = match &o.mod_target {
        Some(t) => encode_target(t),
        None => Json::Null,
    };
    v.push(pair("3", target));
    let r = object(v);
    assert(members_view(v@) =~= match objects_json(o@) {
        JsonValue::Obj(s) => s,
        _ => Seq::empty(),
    });
    r
}

/// Writes a record as a JSON document.
pub fn encode(m: &Manifest) -> (r: Json)
    ensures
        r@ == manifest_json(m@),
{
    let mut v: Vec<(String, Json)> = Vec::new();
    v.push(pair("version", Json::Num(format_decimal(m.version))));
    v.push(pair("root", encode_reference(&m.root.reference, &m.root.type_)));
    v.push(pair("objects", encode_objects(&m.objects)));
    let r = object(v);
    assert(members_view(v@) =~= match manifest_json(m@) {
        JsonValue::Obj(s) => s,
        _ => Seq::empty(),
    });
    r
}

// ----- Decoding -----

/// Why a document is not a manifest record.
#[derive(Clone, Copy, Debug, PartialEq, Eq, Structural)]
pub enum ManifestError {
    /// A required member is missing, or a member has the wrong type.
    Malformed,
}

pub open spec fn str_member(j: JsonValue, key: Seq<char>) -> Option<Seq<char>> {
    match member(j, key) {
        Some(JsonValue::Str(s)) => Some(s),
        _ => None,
    }
}

/// An optional string member: absent and `null` both read as no value.
pub open spec fn opt_str_member(j: JsonValue, key: Seq<char>) -> Option<Option<Seq<char>>> {
    match member(j, key) {
        None => Some(None),
        Some(JsonValue::Null) => Some(None),
        Some(JsonValue::Str(s)) => Some(Some(s)),
        _ => None,
    }
}

pub open spec fn num_member(j: JsonValue, key: Seq<char>) -> Option<u64> {
    match member(j, key) {
        Some(JsonValue::Num(n)) => decimal_u64(n),
        _ => None,
    }
}

pub open spec fn bool_member(j: JsonValue, key: Seq<char>) -> Option<bool> {
    match member(j, key) {
        Some(JsonValue::Bool(b)) => Some(b),
        _ => None,
    }
}

pub open spec fn decode_isa(j: JsonValue) -> Option<IsaView> {
    match str_member(j, "type"@) {
        Some(t) => Some(IsaView { type_: t }),
        None => None,
    }
}

pub open spec fn isa_member(j: JsonValue, key: Seq<char>) -> Option<IsaView> {
    match member(j, key) {
        Some(v) => decode_isa(v),
        None => None,
    }
}

pub open spec fn decode_reference(j: JsonValue) -> Option<ReferenceView> {
    match (str_member(j, "ref"@), str_member(j, "type"@)) {
        (Some(r), Some(t)) => Some(ReferenceView { reference: r, type_: t }),
        _ => None,
    }
}

pub open spec fn opt_reference_member(j: JsonValue, key: Seq<char>) -> Option<
    Option<ReferenceView>,
> {
    match member(j, key) {
        None => Some(None),
        Some(JsonValue::Null) => Some(None),
        Some(v) => match decode_reference(v) {
            Some(r) => Some(Some(r)),
            None => None,
        },
    }
}

pub open spec fn decode_pallet(j: JsonValue) -> Option<PalletView> {
    let barcode = str_member(j, "palletBarcode"@);
    let pallet_path = str_member(j, "palletPath"@);
    let catalog_path = str_member(j, "catalogPath"@);
    let version = opt_str_member(j, "version"@);
    let installed = str_member(j, "installedDate"@);
    let updated = str_member(j, "updateDate"@);
    let listing = opt_reference_member(j, "modListing"@);
    let active = bool_member(j, "active"@);
    let isa = isa_member(j, "isa"@);
    if barcode is Some && pallet_path is Some && catalog_path is Some && version is Some
        && installed is Some && updated is Some && listing is Some && active is Some
        && isa is Some {
        Some(
            PalletView {
                pallet_barcode: barcode->0,
                pallet_path: pallet_path->0,
                catalog_path: catalog_path->0,
                version: version->0,
                installed_date: installed->0,
                update_date: updated->0,
                mod_listing: listing->0,
                active: active->0,
                isa: isa->0,
            },
        )
    } else {
        None
    }
}

/// A map of platform names to references: an object each of whose members is a
/// reference.
pub open spec fn decode_targets(j: JsonValue) -> Option<Seq<(Seq<char>, ReferenceView)>> {
    match j {
        JsonValue::Obj(fs) => if forall|i: int|
            0 <= i < fs.len() ==> #[trigger] decode_reference(fs[i].1) is Some {
            Some(
                fs.map_values(
                    |e: (Seq<char>, JsonValue)| (e.0, decode_reference(e.1)->0),
                ),
            )
        } else {
            None
        },
        _ => None,
    }
}

pub open spec fn decode_listing(j: JsonValue) -> Option<ModListingView> {
    let barcode = str_member(j, "barcode"@);
    let title = opt_str_member(j, "title"@);
    let description = opt_str_member(j, "description"@);
    let author = opt_str_member(j, "author"@);
    let version = opt_str_member(j, "version"@);
    let thumbnail = opt_str_member(j, "thumbnailUrl"@);
    let targets = match member(j, "targets"@) {
        Some(v) => decode_targets(v),
        None => None,
    };
    let isa = isa_member(j, "isa"@);
    if barcode is Some && title is Some && description is Some && author is Some
        && version is Some && thumbnail is Some && targets is Some && isa is Some {
        Some(
            ModListingView {
                barcode: barcode->0,
                title: title->0,
                description: description->0,
                author: author->0,
                version: version->0,
                thumbnail_url: thumbnail->0,
                targets: targets->0,
                isa: isa->0,
            },
        )
    } else {
        None
    }
}

pub open spec fn decode_target(j: JsonValue) -> Option<ModTargetView> {
    let thumbnail = opt_str_member(j, "thumbnailOverride"@);
    let game_id = num_member(j, "gameId"@);
    let mod_id = num_member(j, "modId"@);
    let modfile_id = num_member(j, "modfileId"@);
    let isa = isa_member(j, "isa"@);
    if thumbnail is Some && game_id is Some && mod_id is Some && modfile_id is Some
        && isa is Some {
        Some(
            ModTargetView {
                thumbnail_override: thumbnail->0,
                game_id: game_id->0,
                mod_id: mod_id->0,
                modfile_id: modfile_id->0,
                isa: isa->0,
            },
        )
    } else {
        None
    }
}

pub open spec fn decode_objects(j: JsonValue) -> Option<ObjectView> {
    let pallet = match member(j, "1"@) {
        Some(v) => decode_pallet(v),
        None => None,
    };
    let listing = match member(j, "2"@) {
        None => Some(None),
        Some(JsonValue::Null) => Some(None),
        Some(v) => match decode_listing(v) {
            Some(l) => Some(Some(l)),
            None => None,
        },
    };
    let target = match member(j, "3"@) {
        None => Some(None),
        Some(JsonValue::Null) => Some(None),
        Some(v) => match decode_target(v) {
            Some(t) => Some(Some(t)),
            None => None,
        },
    };
    if pallet is Some && listing is Some && target is Some {
        Some(ObjectView { pallet: pallet->0, mod_listing: listing->0, mod_target: target->0 })
    } else {
        None
    }
}

/// The record that a JSON document holds; `None` where the root index or the
/// pallet is missing, or where any member present has the wrong type. Members
/// of other names are ignored.
pub open spec fn decode_manifest(j: JsonValue) -> Option<ManifestView> {
    let version = num_member(j, "version"@);
    let root = match member(j, "root"@) {
        Some(v) => decode_reference(v),
        None => None,
    };
    let objects = match member(j, "objects"@) {
        Some(v) => decode_objects(v),
        None => None,
    };
    if version is Some && root is Some && objects is Some {
        Some(ManifestView { version: version->0, root: root->0, objects: objects->0 })
    } else {
        None
    }
}

// ----- Round trip -----

/// The member at `i` is the first of its name where every earlier name differs
/// from it in length or in its first character.
proof fn lemma_lookup_literal(fs: Seq<(Seq<char>, JsonValue)>, i: int)
    requires
        0 <= i < fs.len(),
        fs[i].0.len() > 0,
        forall|k: int|
            0 <= k < i ==> fs[k].0.len() != fs[i].0.len() || (fs[k].0.len() > 0 && fs[k].0[0]
                != fs[i].0[0]),
    ensures
        lookup(fs, fs[i].0) == Some(fs[i].1),
{
    assert forall|k: int| 0 <= k < i implies fs[k].0 != fs[i].0 by {
        if fs[k].0.len() == fs[i].0.len() {
            assert(fs[k].0[0] != fs[i].0[0]);
        }
    }
    lemma_lookup_at(fs, fs[i].0, i);
}

proof fn lemma_isa_round_trip(i: IsaView)
    ensures
        decode_isa(isa_json(i)) == Some(i),
{
    lemma_lookup_at(seq![("type"@, JsonValue::Str(i.type_))], "type"@, 0);
}

proof fn lemma_reference_round_trip(r: ReferenceView)
    ensures
        decode_reference(reference_json(r)) == Some(r),
{
    let fs = seq![("ref"@, JsonValue::Str(r.reference)), ("type"@, JsonValue::Str(r.type_))];
    reveal_strlit("ref");
    reveal_strlit("type");
    lemma_lookup_literal(fs, 0);
    lemma_lookup_literal(fs, 1);
}

proof fn lemma_pallet_round_trip(p: PalletView)
    ensures
        decode_pallet(pallet_json(p)) == Some(p),
{
    let fs = match pallet_json(p) {
        JsonValue::Obj(fs) => fs,
        _ => Seq::empty(),
    };
    reveal_strlit("palletBarcode");
    reveal_strlit("palletPath");
    reveal_strlit("catalogPath");
    reveal_strlit("version");
    reveal_strlit("installedDate");
    reveal_strlit("updateDate");
    reveal_strlit("modListing");
    reveal_strlit("active");
    reveal_strlit("isa");
    lemma_lookup_literal(fs, 0);
    lemma_lookup_literal(fs, 1);
    lemma_lookup_literal(fs, 2);
    lemma_lookup_literal(fs, 3);
    lemma_lookup_literal(fs, 4);
    lemma_lookup_literal(fs, 5);
    lemma_lookup_literal(fs, 6);
    lemma_lookup_literal(fs, 7);
    lemma_lookup_literal(fs, 8);
    lemma_isa_round_trip(p.isa);
    match p.mod_listing {
        Some(r) => lemma_reference_round_trip(r),
        None => {},
    }
}

proof fn lemma_targets_round_trip(t: Seq<(Seq<char>, ReferenceView)>)
    ensures
        decode_targets(targets_json(t)) == Some(t),
{
    let fs = t.map_values(|e: (Seq<char>, ReferenceView)| (e.0, reference_json(e.1)));
    assert forall|i: int| 0 <= i < fs.len() implies #[trigger] decode_reference(fs[i].1)
        == Some(t[i].1) by {
        lemma_reference_round_trip(t[i].1);
    }
    assert(fs.map_values(|e: (Seq<char>, JsonValue)| (e.0, decode_reference(e.1)->0)) =~= t);
}

proof fn lemma_listing_round_trip(l: ModListingView)
    ensures
        decode_listing(listing_json(l)) == Some(l),
{
    let fs = match listing_json(l) {
        JsonValue::Obj(fs) => fs,
        _ => Seq::empty(),
    };
    reveal_strlit("barcode");
    reveal_strlit("title");
    reveal_strlit("description");
    reveal_strlit("author");
    reveal_strlit("version");
    reveal_strlit("thumbnailUrl");
    reveal_strlit("targets");
    reveal_strlit("isa");
    lemma_lookup_literal(fs, 0);
    lemma_lookup_literal(fs, 1);
    lemma_lookup_literal(fs, 2);
    lemma_lookup_literal(fs, 3);
    lemma_lookup_literal(fs, 4);
    lemma_lookup_literal(fs, 5);
    lemma_lookup_literal(fs, 6);
    lemma_lookup_literal(fs, 7);
    lemma_targets_round_trip(l.targets);
    lemma_isa_round_trip(l.isa);
}

proof fn lemma_target_round_trip(t: ModTargetView)
    ensures
        decode_target(target_json(t)) == Some(t),
{
    let fs = match target_json(t) {
        JsonValue::Obj(fs) => fs,
        _ => Seq::empty(),
    };
    reveal_strlit("thumbnailOverride");
    reveal_strlit("gameId");
    reveal_strlit("modId");
    reveal_strlit("modfileId");
    reveal_strlit("isa");
    lemma_lookup_literal(fs, 0);
    lemma_lookup_literal(fs, 1);
    lemma_lookup_literal(fs, 2);
    lemma_lookup_literal(fs, 3);
    lemma_lookup_literal(fs, 4);
    lemma_decimal_round_trip(t.game_id as nat);
    lemma_decimal_round_trip(t.mod_id as nat);
    lemma_decimal_round_trip(t.modfile_id as nat);
    lemma_isa_round_trip(t.isa);
}

proof fn lemma_objects_round_trip(o: ObjectView)
    ensures
        decode_objects(objects_json(o)) == Some(o),
{
    let fs = match objects_json(o) {
        JsonValue::Obj(fs) => fs,
        _ => Seq::empty(),
    };
    reveal_strlit("1");
    reveal_strlit("2");
    reveal_strlit("3");
    lemma_lookup_literal(fs, 0);
    lemma_lookup_literal(fs, 1);
    lemma_lookup_literal(fs, 2);
    lemma_pallet_round_trip(o.pallet);
    match o.mod_listing {
        Some(l) => lemma_listing_round_trip(l),
        None => {},
    }
    match o.mod_target {
        Some(t) => lemma_target_round_trip(t),
        None => {},
    }
}

/// Reading back the document of a record gives every field of that record.
pub proof fn lemma_decode_encode(m: ManifestView)
    ensures
        decode_manifest(manifest_json(m)) == Some(m),
{
    let fs = match manifest_json(m) {
        JsonValue::Obj(fs) => fs,
        _ => Seq::empty(),
    };
    reveal_strlit("version");
    reveal_strlit("root");
    reveal_strlit("objects");
    lemma_lookup_literal(fs, 0);
    lemma_lookup_literal(fs, 1);
    lemma_lookup_literal(fs, 2);
    lemma_decimal_round_trip(m.version as nat);
    lemma_reference_round_trip(m.root);
    lemma_objects_round_trip(m.objects);
}

/// A well-formed document, one that some record is written as, is written the
/// same way again after it is read: re-encoding what was decoded is stable.
pub proof fn lemma_encode_decode(j: JsonValue)
    requires
        exists|m: ManifestView| manifest_json(m) == j,
    ensures
        decode_manifest(j) is Some,
        manifest_json(decode_manifest(j)->0) == j,
{
    let m = choose|m: ManifestView| manifest_json(m) == j;
    lemma_decode_encode(m);
}

/// Rewriting a well-formed manifest file writes serde_json's text of the very
/// document that was read: nothing of it is lost, added or reordered.
pub proof fn lemma_text_reencode(text: Seq<char>)
    requires
        exists|m: ManifestView| parsed_text(text) == Some(manifest_json(m)),
    ensures
        ({
            let j = parsed_text(text)->0;
            &&& decode_manifest(j) is Some
            &&& pretty_text(manifest_json(decode_manifest(j)->0)) == pretty_text(j)
        }),
{
    lemma_encode_decode(parsed_text(text)->0);
}

// ----- Reading -----

fn read_str(j: &Json, key: &str) -> (r: Option<String>)
    ensures
        opt_view(r) == str_member(j@, key@),
{
    match get_member(j, key) {
        Some(Json::Str(s)) => Some(s.clone()),
        _ => None,
    }
}

fn read_opt_str(j: &Json, key: &str) -> (r: Option<Option<String>>)
    ensures
        match r {
            Some(o) => opt_str_member(j@, key@) == Some(opt_view(o)),
            None => opt_str_member(j@, key@) is None,
        },
{
    match get_member(j, key) {
        None => Some(None),
        Some(Json::Null) => Some(None),
        Some(Json::Str(s)) => Some(Some(s.clone())),
        _ => None,
    }
}

fn read_num(j: &Json, key: &str) -> (r: Option<u64>)
    ensures
        r == num_member(j@, key@),
{
    match get_member(j, key) {
        Some(Json::Num(n)) => parse_decimal(n.as_str()),
        _ => None,
    }
}

fn read_bool(j: &Json, key: &str) -> (r: Option<bool>)
    ensures
        r == bool_member(j@, key@),
{
    match get_member(j, key) {
        Some(Json::Bool(b)) => Some(*b),
        _ => None,
    }
}

fn read_isa(j: &Json, key: &str) -> (r: Option<Isa>)
    ensures
        match r {
            Some(i) => isa_member(j@, key@) == Some(i@),
            None => isa_member(j@, key@) is None,
        },
{
    match get_member(j, key) {
        Some(v) => match read_str(v, "type") {
            Some(t) => Some(Isa { type_: t }),
            None => None,
        },
        None => None,
    }
}

fn read_reference(j: &Json) -> (r: Option<Reference>)
    ensures
        match r {
            Some(x) => decode_reference(j@) == Some(x@),
            None => decode_reference(j@) is None,
        },
{
    let reference = match read_str(j, "ref") {
        Some(x) => x,
        None => return None,
    };
    let type_ = match read_str(j, "type") {
        Some(x) => x,
        None => return None,
    };
    Some(Reference { reference, type_ })
}

fn read_opt_reference(j: &Json, key: &str) -> (r: Option<Option<Reference>>)
    ensures
        match r {
            Some(o) => opt_reference_member(j@, key@) == Some(opt_reference_view(o)),
            None => opt_reference_member(j@, key@) is None,
        },
{
    match get_member(j, key) {
        None => Some(None),
        Some(Json::Null) => Some(None),
        Some(v) => match read_reference(v) {
            Some(x) => Some(Some(x)),
            None => None,
        },
    }
}

fn read_pallet(j: &Json) -> (r: Option<Pallet>)
    ensures
        match r {
            Some(p) => decode_pallet(j@) == Some(p@),
            None => decode_pallet(j@) is None,
        },
{
    let pallet_barcode = match read_str(j, "palletBarcode") {
        Some(x) => x,
        None => return None,
    };
    let pallet_path = match read_str(j, "palletPath") {
        Some(x) => x,
        None => return None,
    };
    let catalog_path = match read_str(j, "catalogPath") {
        Some(x) => x,
        None => return None,
    };
    let version = match read_opt_str(j, "version") {
        Some(x) => x,
        None => return None,
    };
    let installed_date = match read_str(j, "installedDate") {
        Some(x) => x,
        None => return None,
    };
    let update_date = match read_str(j, "updateDate") {
        Some(x) => x,
        None => return None,
    };
    let mod_listing = match read_opt_reference(j, "modListing") {
        Some(x) => x,
        None => return None,
    };
    let active = match read_bool(j, "active") {
        Some(x) => x,
        None => return None,
    };
    let isa = match read_isa(j, "isa") {
        Some(x) => x,
        None => return None,
    };
    Some(
        Pallet {
            pallet_barcode,
            pallet_path,
            catalog_path,
            version,
            installed_date,
            update_date,
            mod_listing,
            active,
            isa,
        },
    )
}

fn read_targets(j: &Json) -> (r: Option<Vec<(String, Reference)>>)
    ensures
        match r {
            Some(t) => decode_targets(j@) == Some(targets_view(t@)),
            None => decode_targets(j@) is None,
        },
{
    match j {
        Json::Obj(fields) => {
            proof {
                lemma_obj_view(*fields);
            }
            let ghost fs = members_view(fields@);
            let mut out: Vec<(String, Reference)> = Vec::new();
            let mut i: usize = 0;
            while i < fields.len()
                invariant
                    fs == members_view(fields@),
                    j@ == JsonValue::Obj(fs),
                    i <= fields.len(),
                    out.len() == i,
                    forall|k: int|
                        0 <= k < i ==> decode_reference(fs[k].1) == Some(
                            #[trigger] targets_view(out@)[k].1,
                        ) && targets_view(out@)[k].0 == fs[k].0,
                decreases fields.len() - i,
            {
                let ghost before = out@;
                match read_reference(&fields[i].1) {
                    Some(x) => {
                        out.push((fields[i].0.clone(), x));
                        proof {
                            assert forall|k: int| 0 <= k < i + 1 implies decode_reference(
                                fs[k].1,
                            ) == Some(#[trigger] targets_view(out@)[k].1) && targets_view(
                                out@,
                            )[k].0 == fs[k].0 by {
                                if k < i {
                                    assert(out@[k] == before[k]);
                                    assert(targets_view(before)[k] == targets_view(out@)[k]);
                                }
                            }
                        }
                    },
                    None => {
                        assert(decode_reference(fs[i as int].1) is None);
                        return None;
                    },
                }
                i = i + 1;
            }
            assert forall|k: int| 0 <= k < fs.len() implies #[trigger] decode_reference(fs[k].1)
                is Some && targets_view(out@)[k] == (fs[k].0, decode_reference(fs[k].1)->0) by {
                assert(decode_reference(fs[k].1) == Some(targets_view(out@)[k].1));
            }
            assert(targets_view(out@) =~= fs.map_values(
                |e: (Seq<char>, JsonValue)| (e.0, decode_reference(e.1)->0),
            ));
            Some(out)
        },
        _ => None,
    }
}

fn read_listing(j: &Json) -> (r: Option<ModListing>)
    ensures
        match r {
            Some(l) => decode_listing(j@) == Some(l@),
            None => decode_listing(j@) is None,
        },
{
    let barcode = match read_str(j, "barcode") {
        Some(x) => x,
        None => return None,
    };
    let title = match read_opt_str(j, "title") {
        Some(x) => x,
        None => return None,
    };
    let description = match read_opt_str(j, "description") {
        Some(x) => x,
        None => return None,
    };
    let author = match read_opt_str(j, "author") {
        Some(x) => x,
        None => return None,
    };
    let version = match read_opt_str(j, "version") {
        Some(x) => x,
        None => return None,
    };
    let thumbnail_url = match read_opt_str(j, "thumbnailUrl") {
        Some(x) => x,
        None => return None,
    };
    let targets = match get_member(j, "targets") {
        Some(v) => match read_targets(v) {
            Some(t) => t,
            None => return None,
        },
        None => return None,
    };
    let isa = match read_isa(j, "isa") {
        Some(x) => x,
        None => return None,
    };
    Some(
        ModListing {
            barcode,
            title,
            description,
            author,
            version,
            thumbnail_url,
            targets,
            isa,
        },
    )
}

fn read_target(j: &Json) -> (r: Option<ModTarget>)
    ensures
        match r {
            Some(t) => decode_target(j@) == Some(t@),
            None => decode_target(j@) is None,
        },
{
    let thumbnail_override = match read_opt_str(j, "thumbnailOverride") {
        Some(x) => x,
        None => return None,
    };
    let game_id = match read_num(j, "gameId") {
        Some(x) => x,
        None => return None,
    };
    let mod_id = match read_num(j, "modId") {
        Some(x) => x,
        None => return None,
    };
    let modfile_id = match read_num(j, "modfileId") {
        Some(x) => x,
        None => return None,
    };
    let isa = match read_isa(j, "isa") {
        Some(x) => x,
        None => return None,
    };
    Some(ModTarget { thumbnail_override, game_id, mod_id, modfile_id, isa })
}

fn read_objects(j: &Json) -> (r: Option<Object>)
    ensures
        match r {
            Some(o) => decode_objects(j@) == Some(o@),
            None => decode_objects(j@) is None,
        },
{
    let pallet = match get_member(j, "1") {
        Some(v) => match read_pallet(v) {
            Some(p) => p,
            None => return None,
        },
        None => return None,
    };
    let mod_listing = match get_member(j, "2") {
        None => None,
        Some(Json::Null) => None,
        Some(v) => match read_listing(v) {
            Some(l) => Some(l),
            None => return None,
        },
    };
    let mod_target = match get_member(j, "3") {
        None => None,
        Some(Json::Null) => None,
        Some(v) => match read_target(v) {
            Some(t) => Some(t),
            None => return None,
        },
    };
    Some(Object { pallet, mod_listing, mod_target })
}

/// Reads a record from its JSON document.
pub fn decode(j: &Json) -> (r: Result<Manifest, ManifestError>)
    ensures
        match r {
            Ok(m) => decode_manifest(j@) == Some(m@),
            Err(e) => e == ManifestError::Malformed && decode_manifest(j@) is None,
        },
{
    let version = match read_num(j, "version") {
        Some(x) => x,
        None => return Err(ManifestError::Malformed),
    };
    let root = match get_member(j, "root") {
        Some(v) => match read_reference(v) {
            Some(x) => Root { reference: x.reference, type_: x.type_ },
            None => return Err(ManifestError::Malformed),
        },
        None => return Err(ManifestError::Malformed),
    };
    let objects = match get_member(j, "objects") {
        Some(v) => match read_objects(v) {
            Some(o) => o,
            None => return Err(ManifestError::Malformed),
        },
        None => return Err(ManifestError::Malformed),
    };
    Ok(Manifest { version, root, objects })
}

/// The text of a manifest file: the record's document, pretty-printed.
pub fn to_text(m: &Manifest) -> (r: String)
    ensures
        r@ == pretty_text(manifest_json(m@)),
{
    render(&encode(m))
}

/// The record that a manifest file holds: `Malformed` where the text is not
/// JSON or its document is not a record.
pub fn from_text(text: &str) -> (r: Result<Manifest, ManifestError>)
    ensures
        match r {
            Ok(m) => parsed_text(text@) matches Some(j) && decode_manifest(j) == Some(m@),
            Err(e) => e == ManifestError::Malformed && match parsed_text(text@) {
                Some(j) => decode_manifest(j) is None,
                None => true,
            },
        },
{
    match parse(text) {
        Some(j) => decode(&j),
        None => Err(ManifestError::Malformed),
    }
}

} // verus!
