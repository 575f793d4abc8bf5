//! Locating a binary by file name in an unpacked archive.
use vstd::prelude::*;

use crate::text::same_text;

verus! {

/// One entry of a directory tree: a file, or a directory with its entries
/// in the order the filesystem lists them.
#[derive(Debug)]
pub struct DirEntry {
    pub name: String,
    pub is_file: bool,
    pub children: Vec<DirEntry>,
}

/// Whether `entries` holds a file called `name`.
pub open spec fn has_file(entries: Seq<DirEntry>, name: Seq<char>) -> bool {
    exists|k: int| 0 <= k < entries.len() && #[trigger] entries[k].is_file && entries[k].name@ == name
}

/// Where the search finds `name` in a directory with `entries`, as the
/// names along the path: a file directly inside comes first; otherwise the
/// entries are visited in order, a matching file ends the search, and each
/// subdirectory is searched the same way, depth first.
pub open spec fn spec_find(entries: Seq<DirEntry>, name: Seq<char>) -> Option<Seq<Seq<char>>>
    decreases entries, entries.len() + 1,
{
    if has_file(entries, name) {
        Some(seq![name])
    } else {
        spec_scan(entries, name, 0)
    }
}

/// The search of `entries` from position `i` on.
pub open spec fn spec_scan(entries: Seq<DirEntry>, name: Seq<char>, i: int) -> Option<
    Seq<Seq<char>>,
>
    decreases entries, entries.len() - i,
{
    if i < 0 || i >= entries.len() {
        None
    } else if entries[i].is_file {
        if entries[i].name@ == name {
            Some(seq![name])
        } else {
            spec_scan(entries, name, i + 1)
        }
    } else {
        match spec_find(entries[i].children@, name) {
            Some(p) => Some(seq![entries[i].name@] + p),
            None => spec_scan(entries, name, i + 1),
        }
    }
}

/// The names along a found path.
pub open spec fn path_view(r: Option<Vec<String>>) -> Option<Seq<Seq<char>>> {
    match r {
        Some(v) => Some(v@.map_values(|s: String| s@)),
        None => None,
    }
}

fn file_here(entries: &Vec<DirEntry>, name: &str) -> (r: bool)
    ensures
        r == has_file(entries@, name@),
{
    let mut k: usize = 0;
    while k < entries.len()
        invariant
            k <= entries@.len(),
            forall|j: int| 0 <= j < k ==> !(#[trigger] entries@[j].is_file && entries@[j].name@
                == name@),
        decreases entries@.len() - k,
    {
        if entries[k].is_file && same_text(entries[k].name.as_str(), name) {
            return true;
        }
        k = k + 1;
    }
    false
}

/// Finds the binary `name` in a directory with `entries`, as
/// `spec_find` describes; the result is the path from that directory.
pub fn find_binary(entries: &Vec<DirEntry>, name: &str) -> (r: Option<Vec<String>>)
    ensures
        path_view(r) == spec_find(entries@, name@),
    decreases entries@, entries@.len() + 1,
{
    if file_here(entries, name) {
        let found = vec![name.to_owned()];
        assert(found@.map_values(|s: String| s@) =~= seq![name@]);
        return Some(found);
    }
    scan(entries, name, 0)
}

fn scan(entries: &Vec<DirEntry>, name: &str, i: usize) -> (r: Option<Vec<String>>)
    requires
        i <= entries@.len(),
    ensures
        path_view(r) == spec_scan(entries@, name@, i as int),
    decreases entries@, entries@.len() - i,
{
    if i >= entries.len() {
        return None;
    }
    let e = &entries[i];
    if e.is_file {
        if same_text(e.name.as_str(), name) {
            let found = vec![name.to_owned()];
            assert(found@.map_values(|s: String| s@) =~= seq![name@]);
            Some(found)
        } else {
            scan(entries, name, i + 1)
        }
    } else {
        assert(decreases_to!(entries@ => entries@[i as int].children@));
        match find_binary(&e.children, name) {
            Some(rest) => {
                let mut path = vec![e.name.clone()];
                let mut tail = rest;
                path.append(&mut tail);
                Some(path)
            },
            None => scan(entries, name, i + 1),
        }
    }
}

/// Whether a file called `name` lies anywhere in `entries` from position
/// `i` on, at any depth.
pub open spec fn holds_from(entries: Seq<DirEntry>, name: Seq<char>, i: int) -> bool
    decreases entries, entries.len() - i,
{
    if i < 0 || i >= entries.len() {
        false
    } else if entries[i].is_file {
        entries[i].name@ == name || holds_from(entries, name, i + 1)
    } else {
        holds_from(entries[i].children@, name, 0) || holds_from(entries, name, i + 1)
    }
}

/// Whether the entry is a file called `name` or a directory that holds
/// one at any depth.
pub open spec fn entry_holds(e: DirEntry, name: Seq<char>) -> bool {
    if e.is_file {
        e.name@ == name
    } else {
        holds_from(e.children@, name, 0)
    }
}

proof fn lemma_held_at(entries: Seq<DirEntry>, name: Seq<char>, i: int, k: int)
    requires
        0 <= i <= k < entries.len(),
        entry_holds(entries[k], name),
    ensures
        holds_from(entries, name, i),
    decreases k - i,
{
    if i < k {
        lemma_held_at(entries, name, i + 1, k);
    }
}

proof fn lemma_absent_find(entries: Seq<DirEntry>, name: Seq<char>)
    requires
        !holds_from(entries, name, 0),
    ensures
        spec_find(entries, name) is None,
    decreases entries, entries.len() + 1,
{
    if has_file(entries, name) {
        let k = choose|k: int|
            0 <= k < entries.len() && #[trigger] entries[k].is_file && entries[k].name@ == name;
        lemma_held_at(entries, name, 0, k);
    }
    lemma_absent_scan(entries, name, 0);
}

proof fn lemma_absent_scan(entries: Seq<DirEntry>, name: Seq<char>, i: int)
    requires
        !holds_from(entries, name, i),
    ensures
        spec_scan(entries, name, i) is None,
    decreases entries, entries.len() - i,
{
    if 0 <= i < entries.len() {
        if !entries[i].is_file {
            assert(decreases_to!(entries => entries[i].children@));
            lemma_absent_find(entries[i].children@, name);
        }
        lemma_absent_scan(entries, name, i + 1);
    }
}

/// Entries that hold no file called `name` do not change the search.
proof fn lemma_scan_skips(entries: Seq<DirEntry>, name: Seq<char>, lo: int, hi: int)
    requires
        0 <= lo <= hi <= entries.len(),
        forall|k: int| lo <= k < hi ==> !entry_holds(#[trigger] entries[k], name),
    ensures
        spec_scan(entries, name, lo) == spec_scan(entries, name, hi),
    decreases hi - lo,
{
    if lo < hi {
        assert(!entry_holds(entries[lo], name));
        if !entries[lo].is_file {
            lemma_absent_find(entries[lo].children@, name);
        }
        lemma_scan_skips(entries, name, lo + 1, hi);
    }
}

/// When the only entry of a directory that holds `name` is the
/// subdirectory at `i`, and the search of that subdirectory gives `p`, the
/// search gives the subdirectory's name followed by `p`.
proof fn lemma_found_through(entries: Seq<DirEntry>, name: Seq<char>, i: int, p: Seq<Seq<char>>)
    requires
        0 <= i < entries.len(),
        !entries[i].is_file,
        spec_find(entries[i].children@, name) == Some(p),
        forall|k: int| 0 <= k < entries.len() && k != i ==> !entry_holds(#[trigger] entries[k], name),
    ensures
        spec_find(entries, name) == Some(seq![entries[i].name@] + p),
{
    assert forall|k: int| 0 <= k < entries.len() implies !(#[trigger] entries[k].is_file
        && entries[k].name@ == name) by {
        if k != i {
            assert(!entry_holds(entries[k], name));
        }
    }
    assert(!has_file(entries, name));
    lemma_scan_skips(entries, name, 0, i);
}

/// A binary nested two directories deep is found there: when the only
/// entry of the top directory that holds a file called `name` is the
/// directory `a` at position `i`, the only such entry of `a` is the
/// directory `b` at position `j`, and `b` holds a file called `name`
/// directly, the search gives the path `a/b/name`, whatever else the tree
/// holds.
pub proof fn lemma_nested_binary_found(entries: Seq<DirEntry>, name: Seq<char>, i: int, j: int)
    requires
        0 <= i < entries.len(),
        !entries[i].is_file,
        0 <= j < entries[i].children@.len(),
        !entries[i].children@[j].is_file,
        has_file(entries[i].children@[j].children@, name),
        forall|k: int| 0 <= k < entries.len() && k != i ==> !entry_holds(#[trigger] entries[k], name),
        forall|k: int|
            0 <= k < entries[i].children@.len() && k != j ==> !entry_holds(
                #[trigger] entries[i].children@[k],
                name,
            ),
    ensures
        spec_find(entries, name) == Some(
            seq![entries[i].name@, entries[i].children@[j].name@, name],
        ),
{
    let a = entries[i];
    let b = a.children@[j];
    assert(spec_find(b.children@, name) == Some(seq![name]));
    lemma_found_through(a.children@, name, j, seq![name]);
    lemma_found_through(entries, name, i, seq![b.name@] + seq![name]);
    assert(seq![a.name@] + (seq![b.name@] + seq![name]) =~= seq![a.name@, b.name@, name]);
}

} // verus!
