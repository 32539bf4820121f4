//! Songs: what the queue holds and what the library lists.
use vstd::prelude::*;

use crate::format::Format;

verus! {

/// One playable item. Its path is the file's location as text.
#[derive(Debug)]
pub struct Song {
    pub name: String,
    pub artist: Option<String>,
    pub url: Option<String>,
    pub path: String,
    pub format: Format,
}

/// A field-for-field copy of an optional string.
pub fn copy_text(s: &Option<String>) -> (r: Option<String>)
    ensures
        r == *s,
{
    match s {
        Some(t) => Some(t.clone()),
        None => None,
    }
}

/// Whether `song` answers to `s`, by its name or by its source url.
pub open spec fn answers_to(song: Song, s: Seq<char>) -> bool {
    song.name@ == s || (song.url matches Some(u) && u@ == s)
}

/// The position of the first song of `library` that answers to `s`.
pub open spec fn first_answering(library: Seq<Song>, s: Seq<char>) -> Option<int> {
    if exists|k: int| 0 <= k < library.len() && answers_to(library[k], s) {
        Some(
            choose|k: int|
                0 <= k < library.len() && answers_to(library[k], s) && forall|m: int|
                    0 <= m < k ==> !answers_to(#[trigger] library[m], s),
        )
    } else {
        None
    }
}

/// The least position whose song answers, given one that does.
proof fn lemma_first_answering(library: Seq<Song>, s: Seq<char>, k: int)
    requires
        0 <= k < library.len(),
        answers_to(library[k], s),
        forall|m: int| 0 <= m < k ==> !answers_to(#[trigger] library[m], s),
    ensures
        first_answering(library, s) == Some(k),
{
    let c = choose|c: int|
        0 <= c < library.len() && answers_to(library[c], s) && forall|m: int|
            0 <= m < c ==> !answers_to(#[trigger] library[m], s);
    assert(0 <= c < library.len() && answers_to(library[c], s) && forall|m: int|
        0 <= m < c ==> !answers_to(#[trigger] library[m], s));
    if c < k {
        assert(!answers_to(library[c], s));
    }
    if c > k {
        assert(!answers_to(library[k], s));
    }
}

impl Song {
    /// A copy of this song, equal in every field.
    pub fn duplicate(&self) -> (r: Song)
        ensures
            r == *self,
    {
        Song {
            name: self.name.clone(),
            artist: copy_text(&self.artist),
            url: copy_text(&self.url),
            path: self.path.clone(),
            format: self.format,
        }
    }

    /// The first song of `library` whose name is `string`, or whose url is.
    pub fn from_string(string: String, library: &Vec<Song>) -> (r: Option<Song>)
        ensures
            match first_answering(library@, string@) {
                Some(k) => r == Some(library@[k]),
                None => r is None,
            },
    {
        let mut i: usize = 0;
        while i < library.len()
            invariant
                i <= library.len(),
                forall|m: int| 0 <= m < i ==> !answers_to(#[trigger] library@[m], string@),
            decreases library.len() - i,
        {
            let song = &library[i];
            let by_url = match &song.url {
                Some(u) => *u == string,
                None => false,
            };
            if song.name == string || by_url {
                proof {
                    lemma_first_answering(library@, string@, i as int);
                }
                return Some(song.duplicate());
            }
            i = i + 1;
        }
        None
    }
}

impl Default for Song {
    /// A song of unknown name, with no artist, url or path.
    fn default() -> (r: Song)
        ensures
            r.name@ == seq!['U', 'n', 'k', 'n', 'o', 'w', 'n', ' ', 'n', 'a', 'm', 'e'],
            r.artist is None,
            r.url is None,
            r.path@ == Seq::<char>::empty(),
            r.format == Format::UNSUPPORTED,
    {
        let name = "Unknown name".to_owned();
        proof {
            reveal_strlit("Unknown name");
        }
        Song { name, artist: None, url: None, path: String::new(), format: Format::UNSUPPORTED }
    }
}

/// The standard, padded base64 text of the bytes.
pub uninterp spec fn base64_standard(b: Seq<u8>) -> Seq<char>;

/// Relies on base64's `STANDARD` engine and `Engine::encode`: the padded
/// standard base64 text of the bytes. The length bound keeps the encoded
/// size from overflowing, on which `encode` panics.
#[verifier::external_body]
fn encode_base64(b: &Vec<u8>) -> (r: String)
    requires
        b@.len() <= usize::MAX / 2,
    ensures
        r@ == base64_standard(b@),
{
    base64::Engine::encode(&base64::engine::general_purpose::STANDARD, b)
}

/// A song with its cover art, base64-encoded.
#[derive(Debug)]
pub struct SongWithImage {
    pub song: Song,
    pub image: Option<String>,
}

impl SongWithImage {
    /// Pairs a song with the base64 text of its cover art, if it has one.
    pub fn new(song: Song, image: Option<Vec<u8>>) -> (r: SongWithImage)
        requires
            image matches Some(b) ==> b@.len() <= usize::MAX / 2,
        ensures
            r.song == song,
            match image {
                Some(b) => r.image matches Some(t) && t@ == base64_standard(b@),
                None => r.image is None,
            },
    {
        let image = match image {
            Some(b) => Some(encode_base64(&b)),
            None => None,
        };
        SongWithImage { song, image }
    }
}

} // verus!
