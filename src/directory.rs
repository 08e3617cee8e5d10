//! Directory entries and the exact-match search over them.

use vstd::prelude::*;

verus! {

/// One record of the directory: a list's identifier and its display name.
#[derive(Clone, Debug)]
pub struct DirectoryEntry {
    pub id: String,
    pub title: String,
}

/// The identifier of the first entry, in directory order, whose display name
/// equals `name` exactly; `None` when no entry has that name.
pub open spec fn first_match(entries: Seq<DirectoryEntry>, name: Seq<char>) -> Option<Seq<char>>
    decreases entries.len(),
{
    if entries.len() == 0 {
        None
    } else if entries[0].title@ == name {
        Some(entries[0].id@)
    } else {
        first_match(entries.drop_first(), name)
    }
}

/// Scans the directory in order for the first entry whose display name is
/// exactly `name` (case-sensitive, no trimming) and returns its identifier.
pub fn find_list_id(entries: &Vec<DirectoryEntry>, name: &String) -> (r: Option<String>)
    ensures
        match r {
            Some(id) => first_match(entries@, name@) == Some(id@),
            None => first_match(entries@, name@) is None,
        },
{
    let mut i: usize = 0;
    assert(entries@.subrange(0, entries@.len() as int) =~= entries@);
    while i < entries.len()
        invariant
            i <= entries@.len(),
            first_match(entries@, name@) == first_match(entries@.subrange(i as int, entries@.len() as int), name@),
        decreases entries@.len() - i,
    {
        assert(entries@.subrange(i as int, entries@.len() as int).drop_first()
            =~= entries@.subrange(i + 1, entries@.len() as int));
        if entries[i].title == *name {
            return Some(entries[i].id.clone());
        }
        i = i + 1;
    }
    None
}

/// Path of the directory service that lists every known list.
pub open spec fn directory_path() -> Seq<char> {
    "/api/v1/lists"@
}

/// Address of the full list of entries on the directory service at `base`.
pub fn directory_url(base: &str) -> (r: String)
    ensures
        r@ == base@ + directory_path(),
{
    String::from_str(base).concat("/api/v1/lists")
}

} // verus!
