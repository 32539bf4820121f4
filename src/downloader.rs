//! File names for downloaded songs.
use vstd::prelude::*;

use crate::text::push_char;

verus! {

/// What one character of a title becomes in a file name: slashes turn into
/// dashes, punctuation that file systems or shells dislike goes, and ASCII
/// capitals are lowered.
pub open spec fn filename_char(c: char) -> Seq<char> {
    if c == '/' || c == '\\' {
        seq!['-']
    } else if c == ':' || c == '.' || c == '!' || c == '?' || c == '"' || c == '\'' {
        Seq::empty()
    } else if 'A' <= c && c <= 'Z' {
        seq![(c as u32 + 32) as char]
    } else {
        seq![c]
    }
}

/// The file name made from a title, character by character.
pub open spec fn filename_of(s: Seq<char>) -> Seq<char>
    decreases s.len(),
{
    if s.len() == 0 {
        Seq::empty()
    } else {
        filename_of(s.drop_last()) + filename_char(s.last())
    }
}

/// The file name, without extension, for a song of the given title.
pub fn gen_filename(name: &str) -> (r: String)
    ensures
        r@ == filename_of(name@),
{
    let cs = crate::text::chars_of(name);
    let mut out = String::new();
    let mut i: usize = 0;
    while i < cs.len()
        invariant
            i <= cs.len(),
            cs@ == name@,
            out@ == filename_of(cs@.take(i as int)),
        decreases cs.len() - i,
    {
        let c = cs[i];
        let ghost before = out@;
        if c == '/' || c == '\\' {
            push_char(&mut out, '-');
        } else if c == ':' || c == '.' || c == '!' || c == '?' || c == '"' || c == '\'' {
        } else if 'A' <= c && c <= 'Z' {
            let lower = ((c as u32 + 32) as u8) as char;
            push_char(&mut out, lower);
        } else {
            push_char(&mut out, c);
        }
        assert(cs@.take(i as int + 1).drop_last() =~= cs@.take(i as int));
        assert(out@ =~= before + filename_char(c));
        i = i + 1;
    }
    assert(cs@.take(cs.len() as int) =~= cs@);
    out
}

/// A title as written into a file's tag: slashes turn into dashes.
pub open spec fn tag_title_of(s: Seq<char>) -> Seq<char> {
    s.map_values(|c: char| if c == '/' || c == '\\' { '-' } else { c })
}

/// The title to write into a downloaded song's tag.
pub fn tag_title(name: &str) -> (r: String)
    ensures
        r@ == tag_title_of(name@),
{
    let cs = crate::text::chars_of(name);
    let mut out = String::new();
    let mut i: usize = 0;
    while i < cs.len()
        invariant
            i <= cs.len(),
            cs@ == name@,
            out@ == tag_title_of(cs@.take(i as int)),
        decreases cs.len() - i,
    {
        let c = cs[i];
        if c == '/' || c == '\\' {
            push_char(&mut out, '-');
        } else {
            push_char(&mut out, c);
        }
        i = i + 1;
        assert(out@ =~= tag_title_of(cs@.take(i as int)));
    }
    assert(cs@.take(cs.len() as int) =~= cs@);
    out
}

/// Whether position `k` holds the largest size, and no later one is as large.
pub open spec fn is_last_largest(sizes: Seq<u64>, k: int) -> bool {
    &&& 0 <= k < sizes.len()
    &&& forall|m: int| 0 <= m < sizes.len() ==> sizes[m] <= sizes[k]
    &&& forall|m: int| k < m < sizes.len() ==> sizes[m] < sizes[k]
}

/// The thumbnail to fetch: the last of the largest (an unknown size counts
/// as zero); none when there is no thumbnail.
pub fn largest_thumbnail(sizes: &Vec<u64>) -> (r: Option<usize>)
    ensures
        sizes@.len() == 0 <==> r is None,
        r matches Some(k) ==> is_last_largest(sizes@, k as int),
{
    if sizes.len() == 0 {
        return None;
    }
    let mut best: usize = 0;
    let mut i: usize = 1;
    while i < sizes.len()
        invariant
            1 <= i <= sizes.len(),
            best < i,
            forall|m: int| 0 <= m < i ==> sizes@[m] <= sizes@[best as int],
            forall|m: int| best < m < i ==> sizes@[m] < sizes@[best as int],
        decreases sizes.len() - i,
    {
        if sizes[i] >= sizes[best] {
            best = i;
        }
        i = i + 1;
    }
    Some(best)
}

} // verus!
