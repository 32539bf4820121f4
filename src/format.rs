//! Audio file formats and their file-name extensions.
use vstd::prelude::*;

use crate::text::{chars_of, lemma_pieces_nonempty, pieces, same_chars, string_of};

verus! {

/// The container format of a song's file.
#[derive(Clone, Copy, Debug, PartialEq, Eq, Structural)]
pub enum Format {
    MP3,
    MP4,
    UNSUPPORTED,
}

/// The extension, dot included, that names each supported format.
pub open spec fn extension_of(f: Format) -> Option<Seq<char>> {
    match f {
        Format::MP3 => Some(seq!['.', 'm', 'p', '3']),
        Format::MP4 => Some(seq!['.', 'm', 'p', '4']),
        Format::UNSUPPORTED => None,
    }
}

/// The format that an extension (dot included) names.
pub open spec fn format_of_extension(e: Seq<char>) -> Format {
    if e == seq!['.', 'm', 'p', '3'] {
        Format::MP3
    } else if e == seq!['.', 'm', 'p', '4'] {
        Format::MP4
    } else {
        Format::UNSUPPORTED
    }
}

impl Format {
    /// The format named by `extension`, which includes the dot (`".mp3"`).
    pub fn extension_to_filetype(extension: &str) -> (r: Format)
        ensures
            r == format_of_extension(extension@),
    {
        let e = chars_of(extension);
        let mp3 = vec!['.', 'm', 'p', '3'];
        let mp4 = vec!['.', 'm', 'p', '4'];
        if same_chars(&e, &mp3) {
            assert(mp3@ =~= seq!['.', 'm', 'p', '3']);
            Format::MP3
        } else if same_chars(&e, &mp4) {
            assert(mp4@ =~= seq!['.', 'm', 'p', '4']);
            assert(e@ != seq!['.', 'm', 'p', '3']) by {
                assert(mp3@ =~= seq!['.', 'm', 'p', '3']);
            }
            Format::MP4
        } else {
            assert(mp3@ =~= seq!['.', 'm', 'p', '3']);
            assert(mp4@ =~= seq!['.', 'm', 'p', '4']);
            Format::UNSUPPORTED
        }
    }

    /// The format of a file, from what follows the last dot of its name (the
    /// whole name when it has no dot).
    pub fn of_file_name(file_name: &str) -> (r: Format)
        ensures
            r == format_of_extension(seq!['.'] + pieces(file_name@, '.').last()),
    {
        let cs = chars_of(file_name);
        let mut cur: Vec<char> = Vec::new();
        let mut i: usize = 0;
        assert(cs@.take(0) =~= Seq::<char>::empty());
        while i < cs.len()
            invariant
                i <= cs.len(),
                cs@ == file_name@,
                cur@ == pieces(cs@.take(i as int), '.').last(),
            decreases cs.len() - i,
        {
            assert(cs@.take(i as int + 1).drop_last() =~= cs@.take(i as int));
            proof {
                lemma_pieces_nonempty(cs@.take(i as int), '.');
            }
            if cs[i] == '.' {
                cur = Vec::new();
            } else {
                cur.push(cs[i]);
            }
            i = i + 1;
        }
        assert(cs@.take(cs.len() as int) =~= cs@);
        let mut ext: Vec<char> = Vec::new();
        ext.push('.');
        let mut k: usize = 0;
        while k < cur.len()
            invariant
                k <= cur.len(),
                ext@ == seq!['.'] + cur@.take(k as int),
            decreases cur.len() - k,
        {
            ext.push(cur[k]);
            k = k + 1;
            assert(ext@ =~= seq!['.'] + cur@.take(k as int));
        }
        assert(cur@.take(cur.len() as int) =~= cur@);
        let e = string_of(&ext);
        Format::extension_to_filetype(e.as_str())
    }

    /// The extension, dot included, of a supported format.
    pub fn filetype_to_extension(format: Format) -> (r: Option<String>)
        ensures
            match extension_of(format) {
                Some(e) => r is Some && r->0@ == e,
                None => r is None,
            },
    {
        match format {
            Format::MP3 => {
                let s = ".mp3".to_owned();
                proof {
                    reveal_strlit(".mp3");
                }
                Some(s)
            },
            Format::MP4 => {
                let s = ".mp4".to_owned();
                proof {
                    reveal_strlit(".mp4");
                }
                Some(s)
            },
            Format::UNSUPPORTED => None,
        }
    }
}

} // verus!
