use vstd::prelude::*;

use crate::version::{parse_version, precedes, version_of, Version};

verus! {

/// A record of the remote extension index.
pub struct SourceInfo {
    pub id: i64,
    pub name: String,
    pub url: String,
    pub version: String,
    pub icon: String,
    pub nsfw: bool,
}

/// An extension installed on this server.
pub struct InstalledSource {
    pub id: i64,
    pub name: String,
    pub version: String,
}

/// The first record of the index with id `id`.
pub open spec fn find_source(index: Seq<SourceInfo>, id: i64) -> Option<SourceInfo>
    decreases index.len(),
{
    if index.len() == 0 {
        None
    } else if index[0].id == id {
        Some(index[0])
    } else {
        find_source(index.drop_first(), id)
    }
}

/// The version an installed extension runs: its version text, read as
/// `0.0.0` when it cannot be read.
pub open spec fn installed_version(s: InstalledSource) -> Version {
    match version_of(s.version@) {
        Some(v) => v,
        None => Version { major: 0, minor: 0, patch: 0 },
    }
}

/// Whether the index offers a readable version of `s` later than the installed one.
pub open spec fn has_update(index: Seq<SourceInfo>, s: InstalledSource) -> bool {
    match find_source(index, s.id) {
        None => false,
        Some(remote) => match version_of(remote.version@) {
            None => false,
            Some(v) => precedes(installed_version(s), v),
        },
    }
}

/// Holds of an installed extension that the index has an update for.
pub open spec fn outdated_in(index: Seq<SourceInfo>) -> spec_fn(InstalledSource) -> bool {
    |s: InstalledSource| has_update(index, s)
}

/// The name of an installed extension.
pub open spec fn name_of() -> spec_fn(InstalledSource) -> String {
    |s: InstalledSource| s.name
}

/// The names of the installed extensions that an update is available for, in order.
pub open spec fn outdated_names(index: Seq<SourceInfo>, installed: Seq<InstalledSource>) -> Seq<String> {
    installed.filter(outdated_in(index)).map_values(name_of())
}

/// Looks up the first index record with id `id`.
fn lookup(index: &Vec<SourceInfo>, id: i64) -> (r: Option<usize>)
    ensures
        match r {
            Some(k) => k < index@.len() && find_source(index@, id) == Some(index@[k as int]),
            None => find_source(index@, id) is None,
        },
{
    let mut k: usize = 0;
    assert(index@.subrange(0, index@.len() as int) =~= index@);
    while k < index.len()
        invariant
            k <= index@.len(),
            find_source(index@, id) == find_source(index@.subrange(k as int, index@.len() as int), id),
        decreases index@.len() - k,
    {
        let ghost rest = index@.subrange(k as int, index@.len() as int);
        assert(rest.drop_first() =~= index@.subrange(k as int + 1, index@.len() as int));
        assert(rest[0] == index@[k as int]);
        if index[k].id == id {
            return Some(k);
        }
        k = k + 1;
    }
    None
}

/// Whether the index offers an update for the installed extension `s`.
pub fn update_available(index: &Vec<SourceInfo>, s: &InstalledSource) -> (r: bool)
    ensures
        r == has_update(index@, *s),
{
    match lookup(index, s.id) {
        None => false,
        Some(k) => match parse_version(index[k].version.as_str()) {
            None => false,
            Some(remote) => {
                let installed = match parse_version(s.version.as_str()) {
                    Some(v) => v,
                    None => Version::zero(),
                };
                remote.is_newer_than(&installed)
            },
        },
    }
}

/// Names the installed extensions that the remote index offers a later version of.
pub fn extension_updates(index: &Vec<SourceInfo>, installed: &Vec<InstalledSource>) -> (r: Vec<String>)
    ensures
        r@ == outdated_names(index@, installed@),
{
    let mut r: Vec<String> = Vec::new();
    let mut i: usize = 0;
    while i < installed.len()
        invariant
            i <= installed@.len(),
            r@ == installed@.take(i as int).filter(outdated_in(index@)).map_values(name_of()),
        decreases installed@.len() - i,
    {
        let ghost pre = installed@.take(i as int);
        let ghost next = installed@.take(i as int + 1);
        proof {
            reveal(Seq::filter);
            assert(next.drop_last() =~= pre);
            assert(next.last() == installed@[i as int]);
        }
        if update_available(index, &installed[i]) {
            r.push(installed[i].name.clone());
        }
        assert(r@ =~= next.filter(outdated_in(index@)).map_values(name_of()));
        i = i + 1;
    }
    assert(installed@.take(i as int) =~= installed@);
    r
}

} // verus!
