//! Finding a meme file by name: the search over a directory listing
//! that matches a file's stem (the part before its last dot) against
//! the requested name. Reading the directory itself is left to I/O.

use vstd::prelude::*;

use crate::text::str_eq;

verus! {

/// Index of the last `'.'` strictly before position `i`, or -1.
pub open spec fn last_dot_before(s: Seq<char>, i: int) -> int
    decreases i,
{
    if i <= 0 {
        -1
    } else if 0 <= i - 1 < s.len() && s[i - 1] == '.' {
        i - 1
    } else {
        last_dot_before(s, i - 1)
    }
}

/// A file name offers `stem` as its stem: it has an extension separator
/// and everything before the last one equals `stem`.
pub open spec fn stem_matches(file_name: Seq<char>, stem: Seq<char>) -> bool {
    let d = last_dot_before(file_name, file_name.len() as int);
    d >= 0 && file_name.take(d) == stem
}

/// Whether this directory entry's stem is the requested name.
pub fn file_stem_matches(file_name: &str, stem: &str) -> (r: bool)
    ensures
        r == stem_matches(file_name@, stem@),
{
    let n = file_name.unicode_len();
    let mut i: usize = n;
    while i > 0
        invariant
            i <= n,
            n == file_name@.len(),
            last_dot_before(file_name@, n as int) == last_dot_before(file_name@, i as int),
        decreases i,
    {
        if file_name.get_char(i - 1) == '.' {
            return str_eq(file_name.substring_char(0, i - 1), stem);
        }
        i -= 1;
    }
    false
}

/// First directory entry at or after `i` whose stem is `stem`.
pub open spec fn stem_lookup_from(entries: Seq<String>, stem: Seq<char>, i: int) -> Option<int>
    decreases entries.len() - i,
{
    if !(0 <= i < entries.len()) {
        None
    } else if stem_matches(entries[i]@, stem) {
        Some(i)
    } else {
        stem_lookup_from(entries, stem, i + 1)
    }
}

/// Scans a directory listing for the first file whose stem is `name`,
/// as the meme command does before attaching the file it found.
pub fn find_meme_entry(entries: &Vec<String>, name: &str) -> (r: Option<usize>)
    ensures
        match r {
            Some(i) => i < entries@.len() && Some(i as int) == stem_lookup_from(
                entries@,
                name@,
                0,
            ),
            None => stem_lookup_from(entries@, name@, 0) is None,
        },
{
    let n = entries.len();
    let mut i: usize = 0;
    while i < n
        invariant
            i <= n,
            n == entries@.len(),
            stem_lookup_from(entries@, name@, 0) == stem_lookup_from(entries@, name@, i as int),
        decreases n - i,
    {
        if file_stem_matches(entries[i].as_str(), name) {
            return Some(i);
        }
        i += 1;
    }
    None
}

} // verus!
