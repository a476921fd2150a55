//! What the remote catalog says of an item, as plain values.

use vstd::prelude::*;

verus! {

/// One downloadable file of a catalog item.
#[derive(Debug)]
pub struct RemoteFile {
    /// Files are numbered in the order the service received them.
    pub id: u64,
    pub version: Option<String>,
    /// The platforms the file is built for, by name (`"windows"`, ...).
    pub platforms: Vec<String>,
}

/// One item of the user's remote subscription list.
#[derive(Debug)]
pub struct RemoteEntry {
    pub mod_id: u64,
    pub game_id: u64,
    pub name: String,
    pub author: String,
    pub description: Option<String>,
    pub thumbnail_url: String,
    /// When the item was last updated, in seconds since the epoch.
    pub updated_secs: i64,
    /// The file currently attached to the item, if any.
    pub file: Option<RemoteFile>,
}

pub struct RemoteFileView {
    pub id: u64,
    pub version: Option<Seq<char>>,
    pub platforms: Seq<Seq<char>>,
}

pub struct RemoteEntryView {
    pub mod_id: u64,
    pub game_id: u64,
    pub name: Seq<char>,
    pub author: Seq<char>,
    pub description: Option<Seq<char>>,
    pub thumbnail_url: Seq<char>,
    pub updated_secs: i64,
    pub file: Option<RemoteFileView>,
}

pub open spec fn strings_view(s: Seq<String>) -> Seq<Seq<char>> {
    s.map_values(|x: String| x@)
}

impl View for RemoteFile {
    type V = RemoteFileView;

    open spec fn view(&self) -> RemoteFileView {
        RemoteFileView {
            id: self.id,
            version: crate::manifest::opt_view(self.version),
            platforms: strings_view(self.platforms@),
        }
    }
}

impl View for RemoteEntry {
    type V = RemoteEntryView;

    open spec fn view(&self) -> RemoteEntryView {
        RemoteEntryView {
            mod_id: self.mod_id,
            game_id: self.game_id,
            name: self.name@,
            author: self.author@,
            description: crate::manifest::opt_view(self.description),
            thumbnail_url: self.thumbnail_url@,
            updated_secs: self.updated_secs,
            file: match self.file {
                Some(f) => Some(f@),
                None => None,
            },
        }
    }
}

impl RemoteFile {
    /// A copy of the file's description.
    pub fn duplicate(&self) -> (r: RemoteFile)
        ensures
            r@ == self@,
    {
        let mut platforms: Vec<String> = Vec::new();
        let mut i: usize = 0;
        while i < self.platforms.len()
            invariant
                i <= self.platforms.len(),
                platforms@.len() == i,
                forall|k: int| 0 <= k < i ==> #[trigger] platforms@[k]@ == self.platforms@[k]@,
            decreases self.platforms.len() - i,
        {
            platforms.push(self.platforms[i].clone());
            i = i + 1;
        }
        assert(strings_view(platforms@) =~= strings_view(self.platforms@));
        let version = match &self.version {
            Some(v) => Some(v.clone()),
            None => None,
        };
        RemoteFile { id: self.id, version, platforms }
    }
}

pub open spec fn entries_view(s: Seq<RemoteEntry>) -> Seq<RemoteEntryView> {
    s.map_values(|e: RemoteEntry| e@)
}

pub open spec fn files_view(s: Seq<RemoteFile>) -> Seq<RemoteFileView> {
    s.map_values(|f: RemoteFile| f@)
}

/// A remote timestamp in milliseconds, the unit of local timestamps; negative
/// times read as 0 and times past `u64::MAX` milliseconds as `u64::MAX`.
pub open spec fn remote_ms(secs: i64) -> u64 {
    if secs <= 0 {
        0
    } else if secs * 1000 > u64::MAX {
        u64::MAX
    } else {
        (secs * 1000) as u64
    }
}

/// Converts a remote timestamp to milliseconds.
pub fn normalized_ms(secs: i64) -> (r: u64)
    ensures
        r == remote_ms(secs),
{
    if secs <= 0 {
        0
    } else {
        let s = secs as u64;
        if s > u64::MAX / 1000 {
            u64::MAX
        } else {
            s * 1000
        }
    }
}

} // verus!
