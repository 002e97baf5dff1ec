//! Skills, prompt templates and where they come from.

use crate::messages::clone_text;
use vstd::prelude::*;

verus! {

/// Where a resource comes from.
#[derive(Debug, PartialEq)]
pub struct SourceInfo {
    pub path: String,
    pub source: String,
    pub scope: Option<String>,
    pub origin: Option<String>,
    pub base_dir: Option<String>,
}

impl Clone for SourceInfo {
    fn clone(&self) -> (r: Self)
        ensures
            r == *self,
    {
        SourceInfo {
            path: self.path.clone(),
            source: self.source.clone(),
            scope: clone_text(&self.scope),
            origin: clone_text(&self.origin),
            base_dir: clone_text(&self.base_dir),
        }
    }
}

/// A skill that `/skill:name` inserts.
#[derive(Debug, PartialEq)]
pub struct Skill {
    pub name: String,
    pub description: String,
    pub file_path: String,
    pub base_dir: String,
    pub source_info: SourceInfo,
}

impl Clone for Skill {
    fn clone(&self) -> (r: Self)
        ensures
            r == *self,
    {
        Skill {
            name: self.name.clone(),
            description: self.description.clone(),
            file_path: self.file_path.clone(),
            base_dir: self.base_dir.clone(),
            source_info: self.source_info.clone(),
        }
    }
}

/// A prompt template that `/name` inserts.
#[derive(Debug, PartialEq)]
pub struct PromptTemplate {
    pub name: String,
    pub description: String,
    pub content: String,
    pub source_info: SourceInfo,
}

impl Clone for PromptTemplate {
    fn clone(&self) -> (r: Self)
        ensures
            r == *self,
    {
        PromptTemplate {
            name: self.name.clone(),
            description: self.description.clone(),
            content: self.content.clone(),
            source_info: self.source_info.clone(),
        }
    }
}

/// An extension as the resource loader found it.
#[derive(Debug, PartialEq)]
pub struct LoadedExtension {
    pub path: String,
    /// The resolved path, empty where it is not known.
    pub resolved_path: String,
    pub source_info: SourceInfo,
}

/// The path and the provenance that it is found under.
pub type SourceInfoEntry = (String, SourceInfo);

/// The provenance of each extension, in the order of the list: under its configured path, then
/// under its resolved path where there is one.
pub open spec fn source_entries(extensions: Seq<LoadedExtension>) -> Seq<SourceInfoEntry>
    decreases extensions.len(),
{
    if extensions.len() == 0 {
        seq![]
    } else {
        let ext = extensions.last();
        let before = source_entries(extensions.drop_last()).push((ext.path, ext.source_info));
        if ext.resolved_path@.len() == 0 {
            before
        } else {
            before.push(
                (
                    ext.resolved_path,
                    SourceInfo { path: ext.resolved_path, ..ext.source_info },
                ),
            )
        }
    }
}

/// The last position from which `path` is found, -1 where it is not there.
pub open spec fn last_entry_of(entries: Seq<SourceInfoEntry>, path: Seq<char>) -> int
    decreases entries.len(),
{
    if entries.len() == 0 {
        -1
    } else if entries.last().0@ == path {
        entries.len() - 1
    } else {
        last_entry_of(entries.drop_last(), path)
    }
}

/// The provenance under a path: of two entries with one path the later counts.
pub open spec fn source_info_of(entries: Seq<SourceInfoEntry>, path: Seq<char>) -> Option<
    SourceInfo,
> {
    let i = last_entry_of(entries, path);
    if i < 0 {
        None
    } else {
        Some(entries[i].1)
    }
}

/// The provenance of extensions, by their configured and by their resolved paths. Without a loader
/// there is none.
pub fn extension_source_infos(loader: Option<&Vec<LoadedExtension>>) -> (r: Vec<SourceInfoEntry>)
    ensures
        r@ == match loader {
            Some(extensions) => source_entries(extensions@),
            None => seq![],
        },
{
    let mut r: Vec<SourceInfoEntry> = Vec::new();
    match loader {
        Some(extensions) => {
            let n: usize = extensions.len();
            let mut i: usize = 0;
            while i < n
                invariant
                    n == extensions@.len(),
                    i <= n,
                    r@ == source_entries(extensions@.take(i as int)),
                decreases n - i,
            {
                let ext = &extensions[i];
                assert(extensions@.take(i + 1).drop_last() =~= extensions@.take(i as int));
                r.push((ext.path.clone(), ext.source_info.clone()));
                if !ext.resolved_path.as_str().is_empty() {
                    let mut info = ext.source_info.clone();
                    info.path = ext.resolved_path.clone();
                    r.push((ext.resolved_path.clone(), info));
                }
                i += 1;
            }
            assert(extensions@.take(n as int) =~= extensions@);
        },
        None => {},
    }
    r
}

/// The provenance under a path.
pub fn lookup_source_info<'a>(entries: &'a Vec<SourceInfoEntry>, path: &str) -> (r: Option<
    &'a SourceInfo,
>)
    ensures
        match source_info_of(entries@, path@) {
            Some(info) => r == Some(&info),
            None => r is None,
        },
{
    let mut i: usize = entries.len();
    assert(entries@.take(i as int) =~= entries@);
    while i > 0
        invariant
            i <= entries@.len(),
            last_entry_of(entries@, path@) == last_entry_of(entries@.take(i as int), path@),
        decreases i,
    {
        assert(entries@.take(i as int).drop_last() =~= entries@.take(i - 1));
        i -= 1;
        if crate::text::same_text(entries[i].0.as_str(), path) {
            return Some(&entries[i].1);
        }
    }
    None
}

/// Of two extensions with one path the provenance of the later is found.
pub proof fn law_later_provenance_counts(entries: Seq<SourceInfoEntry>, entry: SourceInfoEntry)
    ensures
        source_info_of(entries.push(entry), entry.0@) == Some(entry.1),
        forall|path: Seq<char>|
            path != entry.0@ ==> #[trigger] source_info_of(entries.push(entry), path)
                == source_info_of(entries, path),
{
    assert(entries.push(entry).drop_last() =~= entries);
    assert forall|path: Seq<char>| path != entry.0@ implies #[trigger] source_info_of(
        entries.push(entry),
        path,
    ) == source_info_of(entries, path) by {
        lemma_last_entry_bound(entries, path);
    }
}

proof fn lemma_last_entry_bound(entries: Seq<SourceInfoEntry>, path: Seq<char>)
    ensures
        -1 <= last_entry_of(entries, path) < entries.len(),
    decreases entries.len(),
{
    if entries.len() > 0 {
        lemma_last_entry_bound(entries.drop_last(), path);
    }
}

/// An extension is found under its path and, where it has one, under its resolved path, with its own
/// provenance under the path that it is found under; an extension that comes later counts more.
pub proof fn law_an_extension_is_found_under_its_paths(
    extensions: &Vec<LoadedExtension>,
    entries: &Vec<SourceInfoEntry>,
    by_path: &str,
    by_resolved: &str,
    found: Option<&SourceInfo>,
    found_resolved: Option<&SourceInfo>,
)
    requires
        call_ensures(extension_source_infos, (Some(extensions),), *entries),
        extensions@.len() > 0,
        by_path@ == extensions@.last().path@,
        by_resolved@ == extensions@.last().resolved_path@,
        call_ensures(lookup_source_info, (entries, by_path), found),
        call_ensures(lookup_source_info, (entries, by_resolved), found_resolved),
    ensures
        by_resolved@.len() == 0 ==> found == Some(&extensions@.last().source_info),
        by_resolved@.len() > 0 && by_resolved@ != by_path@ ==> found == Some(
            &extensions@.last().source_info,
        ),
        by_resolved@.len() > 0 ==> (found_resolved matches Some(info) && info.path@ == by_resolved@
            && info.source == extensions@.last().source_info.source && info.scope
            == extensions@.last().source_info.scope && info.origin
            == extensions@.last().source_info.origin && info.base_dir
            == extensions@.last().source_info.base_dir),
{
    let ext = extensions@.last();
    let before = source_entries(extensions@.drop_last());
    let own = (ext.path, ext.source_info);
    let resolved = (
        ext.resolved_path,
        SourceInfo { path: ext.resolved_path, ..ext.source_info },
    );
    law_later_provenance_counts(before, own);
    law_later_provenance_counts(before.push(own), resolved);
}

/// The provenances of one more extension stand behind the others: one under its path, and one under
/// its resolved path where it has one. Without a loader there are none.
pub proof fn law_each_extension_adds_its_paths(
    extensions: &Vec<LoadedExtension>,
    more: &Vec<LoadedExtension>,
    short: Vec<SourceInfoEntry>,
    long: Vec<SourceInfoEntry>,
    none: Vec<SourceInfoEntry>,
)
    requires
        call_ensures(extension_source_infos, (Some(extensions),), short),
        call_ensures(extension_source_infos, (Some(more),), long),
        call_ensures(extension_source_infos, (None::<&Vec<LoadedExtension>>,), none),
        more@.len() == extensions@.len() + 1,
        more@.drop_last() == extensions@,
    ensures
        none@.len() == 0,
        extensions@.len() == 0 ==> short@.len() == 0,
        long@.len() == short@.len() + if more@.last().resolved_path@.len() > 0 {
            2int
        } else {
            1
        },
        long@.take(short@.len() as int) == short@,
        long@[short@.len() as int].0 == more@.last().path,
        long@[short@.len() as int].1 == more@.last().source_info,
{
    assert(long@.take(short@.len() as int) =~= short@);
}

/// A path is found exactly where an entry has it, and of several the last one counts.
pub proof fn law_the_last_entry_of_a_path_counts(
    entries: &Vec<SourceInfoEntry>,
    path: &str,
    i: int,
    found: Option<&SourceInfo>,
)
    requires
        call_ensures(lookup_source_info, (entries, path), found),
    ensures
        (0 <= i < entries@.len() && entries@[i].0@ == path@ && forall|k: int|
            i < k < entries@.len() ==> (#[trigger] entries@[k]).0@ != path@) ==> found == Some(
            &entries@[i].1,
        ),
        (forall|k: int| 0 <= k < entries@.len() ==> (#[trigger] entries@[k]).0@ != path@)
            ==> found is None,
{
    lemma_last_entry(entries@, path@, i);
}

proof fn lemma_last_entry(entries: Seq<SourceInfoEntry>, path: Seq<char>, i: int)
    ensures
        (0 <= i < entries.len() && entries[i].0@ == path && forall|k: int|
            i < k < entries.len() ==> (#[trigger] entries[k]).0@ != path) ==> last_entry_of(
            entries,
            path,
        ) == i,
        (forall|k: int| 0 <= k < entries.len() ==> (#[trigger] entries[k]).0@ != path)
            ==> last_entry_of(entries, path) == -1,
    decreases entries.len(),
{
    if entries.len() > 0 {
        let rest = entries.drop_last();
        let last = entries.len() - 1;
        lemma_last_entry(rest, path, i);
        assert forall|k: int| 0 <= k < rest.len() implies #[trigger] rest[k] == entries[k] by {}
        if entries[last].0@ == path {
            assert(entries.last().0@ == path);
        }
    }
}

} // verus!
