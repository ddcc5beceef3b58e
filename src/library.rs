//! The media library: streams and playlists, and how a source index selects
//! one of them (streams first, then playlists).
use vstd::prelude::*;

verus! {

/// A local audio file with its optional tags.
#[derive(Clone, Debug, PartialEq, Eq)]
pub struct Track {
    pub filename: String,
    pub artist: Option<String>,
    pub title: Option<String>,
}

/// An ordered collection of tracks.
#[derive(Clone, Debug, PartialEq, Eq)]
pub struct Playlist {
    pub title: String,
    pub tracks: Vec<Track>,
}

/// An internet radio stream.
#[derive(Clone, Debug, PartialEq, Eq)]
pub struct Stream {
    pub name: String,
    pub url: String,
    pub logo_svg: Option<String>,
}

/// A snapshot of the media library.
#[derive(Clone, Debug, PartialEq, Eq)]
pub struct Library {
    pub folder: String,
    pub playlists: Vec<Playlist>,
    pub streams: Vec<Stream>,
}

/// What a source index selects in a library.
#[derive(Clone, Copy, Debug, PartialEq, Eq, Structural)]
pub enum SourceRef {
    Stream(usize),
    Playlist(usize),
}

/// The source that index `index` selects among `n_streams` streams followed by
/// `n_playlists` playlists.
pub open spec fn source_ref_of(n_streams: int, n_playlists: int, index: int) -> Option<SourceRef> {
    if index < n_streams {
        Some(SourceRef::Stream(index as usize))
    } else if index - n_streams < n_playlists {
        Some(SourceRef::Playlist((index - n_streams) as usize))
    } else {
        None
    }
}

/// The text without leading and trailing whitespace, as `str::trim` gives it.
pub uninterp spec fn trimmed_of(s: Seq<char>) -> Seq<char>;

/// Relies on `str::trim`: the text with leading and trailing whitespace removed.
#[verifier::external_body]
fn trim(s: &str) -> (r: String)
    ensures
        r@ == trimmed_of(s@),
{
    s.trim().to_string()
}

/// The stream URLs listed by the lines of a streams file: each line is
/// trimmed, and empty lines are skipped.
pub open spec fn stream_urls(lines: Seq<String>) -> Seq<Seq<char>>
    decreases lines.len(),
{
    if lines.len() == 0 {
        Seq::empty()
    } else {
        let rest = stream_urls(lines.drop_last());
        let url = trimmed_of(lines.last()@);
        if url.len() > 0 {
            rest.push(url)
        } else {
            rest
        }
    }
}

/// The streams listed by the lines of a streams file, one URL per line, in
/// order; each stream is named by its URL and has no logo.
pub fn parse_stream_lines(lines: &Vec<String>) -> (r: Vec<Stream>)
    ensures
        r@.len() == stream_urls(lines@).len(),
        forall|k: int|
            0 <= k < r@.len() ==> {
                &&& (#[trigger] r@[k]).url@ == stream_urls(lines@)[k]
                &&& r@[k].name == r@[k].url
                &&& r@[k].logo_svg.is_none()
            },
{
    let mut streams: Vec<Stream> = Vec::new();
    let mut i: usize = 0;
    while i < lines.len()
        invariant
            i <= lines@.len(),
            streams@.len() == stream_urls(lines@.subrange(0, i as int)).len(),
            forall|k: int|
                0 <= k < streams@.len() ==> {
                    &&& (#[trigger] streams@[k]).url@ == stream_urls(lines@.subrange(0, i as int))[k]
                    &&& streams@[k].name == streams@[k].url
                    &&& streams@[k].logo_svg.is_none()
                },
        decreases lines@.len() - i,
    {
        let url = trim(lines[i].as_str());
        assert(lines@.subrange(0, i + 1).drop_last() =~= lines@.subrange(0, i as int));
        if url.unicode_len() > 0 {
            streams.push(Stream { name: url.clone(), url, logo_svg: None });
        }
        i = i + 1;
    }
    assert(lines@.subrange(0, lines@.len() as int) =~= lines@);
    streams
}

/// Whether a directory entry with this file name and extension is a track:
/// an mp3 or flac file whose name does not start with a dot.
pub open spec fn is_track_file_spec(file_name: Seq<char>, extension: Seq<char>) -> bool {
    &&& (extension == "mp3"@ || extension == "flac"@)
    &&& !(file_name.len() > 0 && file_name[0] == '.')
}

/// Whether a directory entry with this file name and extension is a track.
pub fn is_track_file(file_name: &str, extension: &str) -> (r: bool)
    ensures
        r == is_track_file_spec(file_name@, extension@),
{
    let ext = String::from_str(extension);
    let allowed = ext == String::from_str("mp3") || ext == String::from_str("flac");
    let hidden = file_name.unicode_len() > 0 && file_name.get_char(0) == '.';
    allowed && !hidden
}

impl Library {
    /// A library with no streams and no playlists.
    pub fn empty(folder: String) -> (r: Library)
        ensures
            r.folder == folder,
            r.playlists@.len() == 0,
            r.streams@.len() == 0,
    {
        Library { folder, playlists: Vec::new(), streams: Vec::new() }
    }

    /// Resolves a source index: streams come first, then playlists.
    pub fn resolve_source(&self, index: usize) -> (r: Option<SourceRef>)
        ensures
            r == source_ref_of(self.streams@.len() as int, self.playlists@.len() as int, index as int),
    {
        let n_streams = self.streams.len();
        if index < n_streams {
            Some(SourceRef::Stream(index))
        } else if index - n_streams < self.playlists.len() {
            Some(SourceRef::Playlist(index - n_streams))
        } else {
            None
        }
    }
}

} // verus!
