//! Entries of the up-next queue and how they are derived from tracks.
use vstd::prelude::*;
use crate::library::Track;
use crate::state::{copy_text, Source};

verus! {

/// One upcoming entry, with the metadata shown for it.
#[derive(Clone, Debug, PartialEq, Eq)]
pub struct QueueItem {
    pub playlist_name: String,
    pub title: String,
    pub artist: Option<String>,
    pub file_path: String,
}

/// The file stem (name without directory and extension) of a path, as
/// `std::path::Path::file_stem` computes it.
pub uninterp spec fn file_stem_of(path: Seq<char>) -> Option<Seq<char>>;

/// Relies on `std::path::Path::file_stem`: the stem of the path's file name,
/// if it has one. The path is valid UTF-8, so the lossy conversion keeps it.
#[verifier::external_body]
fn file_stem(path: &String) -> (r: Option<String>)
    ensures
        r.is_some() == file_stem_of(path@).is_some(),
        r matches Some(s) ==> file_stem_of(path@) == Some(s@),
{
    match std::path::Path::new(path.as_str()).file_stem() {
        Some(stem) => Some(stem.to_string_lossy().into_owned()),
        None => None,
    }
}

/// The title shown for a track: its title tag, else its file stem, else its path.
pub open spec fn display_title(t: Track) -> Seq<char> {
    match t.title {
        Some(title) => title@,
        None => match file_stem_of(t.filename@) {
            Some(stem) => stem,
            None => t.filename@,
        },
    }
}

/// `item` is the queue entry for track `t` of the playlist named `playlist_name`.
pub open spec fn item_of_track(item: QueueItem, playlist_name: String, t: Track) -> bool {
    &&& item.playlist_name == playlist_name
    &&& item.title@ == display_title(t)
    &&& item.artist == t.artist
    &&& item.file_path == t.filename
}

/// The playback source that shows `item` as the current track.
pub open spec fn source_of_item(item: QueueItem) -> Source {
    Source::Track { title: item.title, artist: item.artist, playlist_name: item.playlist_name }
}

impl QueueItem {
    /// The queue entry for track `t` of the playlist named `playlist_name`.
    pub fn from_track(playlist_name: &String, t: &Track) -> (r: QueueItem)
        ensures
            item_of_track(r, *playlist_name, *t),
    {
        let title = match &t.title {
            Some(title) => title.clone(),
            None => match file_stem(&t.filename) {
                Some(stem) => stem,
                None => t.filename.clone(),
            },
        };
        QueueItem {
            playlist_name: playlist_name.clone(),
            title,
            artist: copy_text(&t.artist),
            file_path: t.filename.clone(),
        }
    }

    /// A copy of this entry.
    pub fn duplicate(&self) -> (r: QueueItem)
        ensures
            r == *self,
    {
        QueueItem {
            playlist_name: self.playlist_name.clone(),
            title: self.title.clone(),
            artist: copy_text(&self.artist),
            file_path: self.file_path.clone(),
        }
    }

    /// The playback source that shows this entry as the current track.
    pub fn to_source(&self) -> (r: Source)
        ensures
            r == source_of_item(*self),
    {
        Source::Track {
            title: self.title.clone(),
            artist: copy_text(&self.artist),
            playlist_name: self.playlist_name.clone(),
        }
    }
}

/// A copy of a sequence of queue entries.
pub fn copy_items(items: &Vec<QueueItem>) -> (r: Vec<QueueItem>)
    ensures
        r@ == items@,
{
    let mut out: Vec<QueueItem> = Vec::new();
    let mut i: usize = 0;
    while i < items.len()
        invariant
            i <= items@.len(),
            out@ == items@.subrange(0, i as int),
        decreases items@.len() - i,
    {
        out.push(items[i].duplicate());
        i = i + 1;
    }
    assert(out@ =~= items@);
    out
}

} // verus!
