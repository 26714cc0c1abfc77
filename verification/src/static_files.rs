//! Choosing track names from the files of a directory: every regular,
//! non-hidden file becomes one track, named after the file, in byte order.

use vstd::prelude::*;
use vstd::string::*;
use vstd::seq_lib::to_multiset_insert;
use vstd::utf8::encode_utf8;

use crate::tracks::names_of;

verus! {

broadcast use vstd::seq_lib::group_to_multiset_ensures;

/// One entry of a directory listing: its file name and whether it is a directory.
#[derive(Debug)]
pub struct StaticEntry {
    pub name: String,
    pub is_dir: bool,
}

/// `a` comes no later than `b` in lexicographic byte order (a prefix first).
pub open spec fn bytes_le(a: Seq<u8>, b: Seq<u8>) -> bool
    decreases a.len(),
{
    if a.len() == 0 {
        true
    } else if b.len() == 0 {
        false
    } else if a[0] != b[0] {
        a[0] < b[0]
    } else {
        bytes_le(a.drop_first(), b.drop_first())
    }
}

/// `a` comes no later than `b` in the order of `String`'s `Ord`: lexicographic
/// order of the UTF-8 encodings.
pub open spec fn name_le(a: Seq<char>, b: Seq<char>) -> bool {
    bytes_le(encode_utf8(a), encode_utf8(b))
}

/// `names` is in ascending order.
pub open spec fn sorted_names(names: Seq<Seq<char>>) -> bool {
    forall|i: int, j: int| 0 <= i < j < names.len() ==> name_le(names[i], names[j])
}

/// A name starting with `.` marks a hidden file.
pub open spec fn is_hidden(name: Seq<char>) -> bool {
    name.len() > 0 && name[0] == '.'
}

/// The entry names a track: a file that is neither a directory nor hidden.
pub open spec fn is_track_file(e: StaticEntry) -> bool {
    !e.is_dir && !is_hidden(e.name@)
}

/// The names of the entries that name tracks, in listing order.
pub open spec fn track_file_names(entries: Seq<StaticEntry>) -> Seq<Seq<char>>
    decreases entries.len(),
{
    if entries.len() == 0 {
        seq![]
    } else {
        let rest = track_file_names(entries.drop_last());
        let e = entries.last();
        if is_track_file(e) {
            rest.push(e.name@)
        } else {
            rest
        }
    }
}

/// Any two byte strings are ordered one way or the other.
pub proof fn lemma_bytes_le_total(a: Seq<u8>, b: Seq<u8>)
    ensures
        bytes_le(a, b) || bytes_le(b, a),
    decreases a.len(),
{
    if a.len() > 0 && b.len() > 0 && a[0] == b[0] {
        lemma_bytes_le_total(a.drop_first(), b.drop_first());
    }
}

/// The byte order is transitive.
pub proof fn lemma_bytes_le_transitive(a: Seq<u8>, b: Seq<u8>, c: Seq<u8>)
    requires
        bytes_le(a, b),
        bytes_le(b, c),
    ensures
        bytes_le(a, c),
    decreases a.len(),
{
    if a.len() > 0 && b.len() > 0 && c.len() > 0 && a[0] == b[0] && b[0] == c[0] {
        lemma_bytes_le_transitive(a.drop_first(), b.drop_first(), c.drop_first());
    }
}

proof fn lemma_bytes_le_skip(a: Seq<u8>, b: Seq<u8>, i: int)
    requires
        0 <= i < a.len(),
        i < b.len(),
        a[i] == b[i],
    ensures
        bytes_le(a.skip(i), b.skip(i)) == bytes_le(a.skip(i + 1), b.skip(i + 1)),
{
    assert(a.skip(i).drop_first() =~= a.skip(i + 1));
    assert(b.skip(i).drop_first() =~= b.skip(i + 1));
}

/// Compares two byte strings in lexicographic order.
fn bytes_le_exec(a: &[u8], b: &[u8]) -> (r: bool)
    ensures
        r == bytes_le(a@, b@),
{
    let mut i: usize = 0;
    assert(a@.skip(0) =~= a@);
    assert(b@.skip(0) =~= b@);
    while i < a.len() && i < b.len()
        invariant
            i <= a@.len(),
            i <= b@.len(),
            bytes_le(a@, b@) == bytes_le(a@.skip(i as int), b@.skip(i as int)),
        decreases a@.len() - i,
    {
        if a[i] != b[i] {
            return a[i] < b[i];
        }
        proof {
            lemma_bytes_le_skip(a@, b@, i as int);
        }
        i = i + 1;
    }
    a.len() <= b.len()
}

/// Compares two names in the order of `String`'s `Ord`.
fn name_le_exec(a: &String, b: &String) -> (r: bool)
    ensures
        r == name_le(a@, b@),
{
    bytes_le_exec(a.as_str().as_bytes(), b.as_str().as_bytes())
}

/// Inserts `name` into the ascending list `sorted`, after every name that
/// does not come later.
fn insert_sorted(sorted: &mut Vec<String>, name: String)
    requires
        sorted_names(names_of(old(sorted)@)),
    ensures
        sorted_names(names_of(final(sorted)@)),
        names_of(final(sorted)@).to_multiset() == names_of(old(sorted)@).to_multiset().insert(
            name@,
        ),
{
    let ghost v = names_of(sorted@);
    let mut pos: usize = 0;
    while pos < sorted.len() && name_le_exec(&sorted[pos], &name)
        invariant
            pos <= sorted@.len(),
            names_of(sorted@) == v,
            sorted_names(v),
            forall|k: int| 0 <= k < pos ==> name_le(#[trigger] v[k], name@),
        decreases sorted@.len() - pos,
    {
        pos = pos + 1;
    }
    proof {
        if pos < sorted@.len() {
            lemma_bytes_le_total(encode_utf8(v[pos as int]), encode_utf8(name@));
        }
    }
    sorted.insert(pos, name);
    let ghost w = names_of(sorted@);
    assert(w =~= v.insert(pos as int, name@));
    assert forall|i: int, j: int| 0 <= i < j < w.len() implies name_le(w[i], w[j]) by {
        if j < pos {
        } else if j == pos {
        } else if i < pos {
            assert(w[j] == v[j - 1]);
            assert(name_le(w[i], name@));
            assert(name_le(name@, v[pos as int]));
            if j - 1 > pos {
                assert(name_le(v[pos as int], v[j - 1]));
                lemma_bytes_le_transitive(
                    encode_utf8(name@),
                    encode_utf8(v[pos as int]),
                    encode_utf8(v[j - 1]),
                );
            }
            lemma_bytes_le_transitive(
                encode_utf8(w[i]),
                encode_utf8(name@),
                encode_utf8(w[j]),
            );
        } else if i == pos {
            assert(w[j] == v[j - 1]);
            if j - 1 > pos {
                assert(name_le(v[pos as int], v[j - 1]));
                lemma_bytes_le_transitive(
                    encode_utf8(name@),
                    encode_utf8(v[pos as int]),
                    encode_utf8(v[j - 1]),
                );
            }
        } else {
            assert(w[i] == v[i - 1]);
            assert(w[j] == v[j - 1]);
        }
    }
    proof {
        to_multiset_insert(v, pos as int, name@);
    }
}

/// Returns just filenames: the names of the regular, non-hidden files among
/// `entries`, in ascending byte order. Used by the subscriber to discover
/// track names and by the publisher to resolve file paths.
pub fn list_static_dir(entries: Vec<StaticEntry>) -> (names: Vec<String>)
    ensures
        sorted_names(names_of(names@)),
        names_of(names@).to_multiset() == track_file_names(entries@).to_multiset(),
{
    let mut names: Vec<String> = Vec::new();
    let mut i: usize = 0;
    while i < entries.len()
        invariant
            i <= entries@.len(),
            sorted_names(names_of(names@)),
            names_of(names@).to_multiset() == track_file_names(
                entries@.take(i as int),
            ).to_multiset(),
        decreases entries@.len() - i,
    {
        let e = &entries[i];
        assert(entries@.take(i + 1).drop_last() =~= entries@.take(i as int));
        assert(entries@.take(i + 1).last() == entries@[i as int]);
        let hidden = !e.name.as_str().is_empty() && e.name.as_str().get_char(0) == '.';
        if !e.is_dir && !hidden {
            insert_sorted(&mut names, e.name.clone());
        }
        i = i + 1;
    }
    assert(entries@.take(entries@.len() as int) =~= entries@);
    names
}

} // verus!
