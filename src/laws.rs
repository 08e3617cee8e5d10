//! Properties of the relay that involve several calls or every input.

use vstd::prelude::*;
use crate::directory::{first_match, DirectoryEntry};
use crate::gateway::{status_of, GatewayError};

verus! {

/// The cache's contents after `ops` are recorded in order, each as
/// `ResolutionCache::insert` records one.
pub open spec fn apply_inserts(
    m: Map<Seq<char>, Seq<char>>,
    ops: Seq<(Seq<char>, Seq<char>)>,
) -> Map<Seq<char>, Seq<char>>
    decreases ops.len(),
{
    if ops.len() == 0 {
        m
    } else {
        apply_inserts(m.insert(ops[0].0, ops[0].1), ops.drop_first())
    }
}

/// Once `name` has been resolved and cached, it stays cached whatever is
/// recorded afterwards, so every later lookup of it is a hit and needs no
/// directory query.
pub proof fn law_resolved_name_stays_cached(
    m: Map<Seq<char>, Seq<char>>,
    name: Seq<char>,
    id: Seq<char>,
    ops: Seq<(Seq<char>, Seq<char>)>,
)
    ensures
        apply_inserts(m.insert(name, id), ops).contains_key(name),
    decreases ops.len(),
{
    if ops.len() > 0 {
        let next = m.insert(name, id).insert(ops[0].0, ops[0].1);
        if ops[0].0 == name {
            assert(next =~= m.insert(name, ops[0].1));
            law_resolved_name_stays_cached(m, name, ops[0].1, ops.drop_first());
        } else {
            assert(next =~= m.insert(ops[0].0, ops[0].1).insert(name, id));
            law_resolved_name_stays_cached(m.insert(ops[0].0, ops[0].1), name, id, ops.drop_first());
        }
    }
}

/// With a directory that does not change, every resolution of `name`
/// settles on the directory's first exact match, and the cache keeps giving
/// that identifier: whatever other names are recorded, and however many
/// racing resolutions of `name` record it again.
pub proof fn law_stable_directory_same_id(
    m: Map<Seq<char>, Seq<char>>,
    entries: Seq<DirectoryEntry>,
    name: Seq<char>,
    ops: Seq<(Seq<char>, Seq<char>)>,
)
    requires
        first_match(entries, name) is Some,
        forall|i: int|
            0 <= i < ops.len() && #[trigger] ops[i].0 == name ==> first_match(entries, name)
                == Some(ops[i].1),
    ensures
        apply_inserts(m.insert(name, first_match(entries, name)->Some_0), ops).contains_key(name),
        apply_inserts(m.insert(name, first_match(entries, name)->Some_0), ops)[name]
            == first_match(entries, name)->Some_0,
    decreases ops.len(),
{
    let id = first_match(entries, name)->Some_0;
    if ops.len() > 0 {
        let next = m.insert(name, id).insert(ops[0].0, ops[0].1);
        let rest = ops.drop_first();
        assert forall|i: int|
            0 <= i < rest.len() && #[trigger] rest[i].0 == name implies first_match(entries, name)
                == Some(rest[i].1) by {
            assert(ops[i + 1] == rest[i]);
        }
        if ops[0].0 == name {
            assert(first_match(entries, name) == Some(ops[0].1));
            assert(next =~= m.insert(name, id));
            law_stable_directory_same_id(m, entries, name, rest);
        } else {
            assert(next =~= m.insert(ops[0].0, ops[0].1).insert(name, id));
            law_stable_directory_same_id(m.insert(ops[0].0, ops[0].1), entries, name, rest);
        }
    }
}

/// A name resolves only to the identifier of an entry whose display name is
/// exactly that name: no case folding and no trimming.
pub proof fn law_match_is_exact(entries: Seq<DirectoryEntry>, name: Seq<char>)
    ensures
        first_match(entries, name) is Some ==> exists|i: int|
            0 <= i < entries.len() && #[trigger] entries[i].title@ == name
                && first_match(entries, name) == Some(entries[i].id@),
    decreases entries.len(),
{
    if entries.len() > 0 && entries[0].title@ != name {
        law_match_is_exact(entries.drop_first(), name);
        if first_match(entries, name) is Some {
            let i = choose|i: int|
                0 <= i < entries.drop_first().len() && #[trigger] entries.drop_first()[i].title@
                    == name && first_match(entries.drop_first(), name) == Some(
                    entries.drop_first()[i].id@,
                );
            assert(entries[i + 1] == entries.drop_first()[i]);
        }
    }
}

/// When no entry of the directory has the requested name, the name does not
/// resolve, and the request is answered as not found (404) without anything
/// being cached.
pub proof fn law_no_match_is_not_found(entries: Seq<DirectoryEntry>, name: Seq<char>)
    requires
        forall|i: int| 0 <= i < entries.len() ==> #[trigger] entries[i].title@ != name,
    ensures
        first_match(entries, name) is None,
        status_of(GatewayError::NotFound) == 404,
    decreases entries.len(),
{
    if entries.len() > 0 {
        assert forall|i: int| 0 <= i < entries.drop_first().len() implies #[trigger] entries.drop_first()[i].title@ != name by {
            assert(entries[i + 1] == entries.drop_first()[i]);
        }
        law_no_match_is_not_found(entries.drop_first(), name);
        assert(entries[0].title@ != name);
    }
}

} // verus!
