//! The path mapper: from each source file to the object file and the
//! binary that are built from it.
//!
//! The object tree and the binary tree mirror the source tree: a source's
//! path relative to the base directory is joined onto each root, with the
//! extension `o` for the object and none for the binary.

use vstd::prelude::*;

use crate::discover::texts;
use crate::paths::{extension_set, join, joined, relative_to, strip_prefix, with_extension};
use crate::text::{precedes, strictly_ascending};

verus! {

/// One source file with the paths derived from it.
#[derive(Clone, Debug, PartialEq, Eq)]
pub struct BuildUnit {
    /// The source file, as it was discovered.
    pub source: String,
    /// The source's path relative to the base directory.
    pub relative: String,
    /// Where the assembler puts the object file.
    pub object: String,
    /// Where the linker puts the binary.
    pub binary: String,
}

/// The four paths of a build unit, as texts.
pub struct BuildUnitView {
    pub source: Seq<char>,
    pub relative: Seq<char>,
    pub object: Seq<char>,
    pub binary: Seq<char>,
}

impl View for BuildUnit {
    type V = BuildUnitView;

    open spec fn view(&self) -> BuildUnitView {
        BuildUnitView {
            source: self.source@,
            relative: self.relative@,
            object: self.object@,
            binary: self.binary@,
        }
    }
}

/// The views of a sequence of build units.
pub open spec fn unit_views(units: Seq<BuildUnit>) -> Seq<BuildUnitView> {
    units.map_values(|u: BuildUnit| u@)
}

/// The extension of an object file.
pub open spec fn object_extension() -> Seq<char> {
    "o"@
}

/// The object file for a source at `relative` below the base directory.
pub open spec fn object_path(object_root: Seq<char>, relative: Seq<char>) -> Seq<char> {
    extension_set(joined(object_root, relative), object_extension())
}

/// The binary for a source at `relative` below the base directory.
pub open spec fn binary_path(binary_root: Seq<char>, relative: Seq<char>) -> Seq<char> {
    extension_set(joined(binary_root, relative), ""@)
}

/// The build unit of a source whose path relative to the base directory
/// is `relative`; none for a source that does not lie below the base
/// directory.
pub open spec fn unit_with(
    source: Seq<char>,
    relative: Option<Seq<char>>,
    object_root: Seq<char>,
    binary_root: Seq<char>,
) -> Option<BuildUnitView> {
    match relative {
        None => None,
        Some(rel) => Some(
            BuildUnitView {
                source,
                relative: rel,
                object: object_path(object_root, rel),
                binary: binary_path(binary_root, rel),
            },
        ),
    }
}

/// The build unit of `source`, if it lies below `base`.
pub open spec fn unit_of(
    source: Seq<char>,
    base: Seq<char>,
    object_root: Seq<char>,
    binary_root: Seq<char>,
) -> Option<BuildUnitView> {
    unit_with(source, relative_to(source, base), object_root, binary_root)
}

/// The build units of `files`: one for each file below `base`, in the
/// order of `files`; the other files are left out.
pub open spec fn mapped(
    files: Seq<Seq<char>>,
    base: Seq<char>,
    object_root: Seq<char>,
    binary_root: Seq<char>,
) -> Seq<BuildUnitView>
    decreases files.len(),
{
    if files.len() == 0 {
        Seq::empty()
    } else {
        let front = mapped(files.drop_last(), base, object_root, binary_root);
        match unit_of(files.last(), base, object_root, binary_root) {
            None => front,
            Some(unit) => front.push(unit),
        }
    }
}

/// The positions in `files` of the files that lie below `base`, ascending.
pub open spec fn kept(files: Seq<Seq<char>>, base: Seq<char>) -> Seq<int>
    decreases files.len(),
{
    if files.len() == 0 {
        Seq::empty()
    } else {
        let front = kept(files.drop_last(), base);
        if relative_to(files.last(), base) is Some {
            front.push(files.len() - 1)
        } else {
            front
        }
    }
}

/// Path mapping keeps the order of the files and drops exactly those that
/// do not lie below the base directory: the units correspond, one to one
/// and in order, to the ascending positions of the files below `base`, and
/// every such position is among them.
pub proof fn lemma_mapped_keeps_order(
    files: Seq<Seq<char>>,
    base: Seq<char>,
    object_root: Seq<char>,
    binary_root: Seq<char>,
)
    ensures
        mapped(files, base, object_root, binary_root).len() == kept(files, base).len(),
        kept(files, base).len() <= files.len(),
        forall|k: int|
            0 <= k < kept(files, base).len() ==> 0 <= #[trigger] kept(files, base)[k] < files.len(),
        forall|k: int, l: int|
            0 <= k < l < kept(files, base).len() ==> kept(files, base)[k] < kept(files, base)[l],
        forall|k: int|
            0 <= k < kept(files, base).len() ==> Some(
                #[trigger] mapped(files, base, object_root, binary_root)[k],
            ) == unit_of(files[kept(files, base)[k]], base, object_root, binary_root),
        forall|i: int|
            0 <= i < files.len() ==> (kept(files, base).contains(i) <==> relative_to(
                #[trigger] files[i],
                base,
            ) is Some),
    decreases files.len(),
{
    if files.len() > 0 {
        let front = files.drop_last();
        lemma_mapped_keeps_order(front, base, object_root, binary_root);
        let last = files.len() - 1;
        let idx = kept(files, base);
        let old_idx = kept(front, base);
        assert forall|i: int| 0 <= i < files.len() implies (idx.contains(i) <==> relative_to(
            #[trigger] files[i],
            base,
        ) is Some) by {
            if i < last {
                assert(front[i] == files[i]);
                if old_idx.contains(i) {
                    let k = choose|k: int| 0 <= k < old_idx.len() && old_idx[k] == i;
                    assert(idx[k] == i);
                }
                if idx.contains(i) {
                    let k = choose|k: int| 0 <= k < idx.len() && idx[k] == i;
                    assert(old_idx[k] == i);
                }
            } else {
                if relative_to(files.last(), base) is Some {
                    assert(idx[idx.len() - 1] == last);
                }
                if idx.contains(i) {
                    let k = choose|k: int| 0 <= k < idx.len() && idx[k] == i;
                    if k < old_idx.len() {
                        assert(old_idx[k] < front.len());
                    }
                }
            }
        }
        assert forall|k: int| 0 <= k < idx.len() implies Some(
            #[trigger] mapped(files, base, object_root, binary_root)[k],
        ) == unit_of(files[idx[k]], base, object_root, binary_root) by {
            if k < old_idx.len() {
                assert(front[old_idx[k]] == files[old_idx[k]]);
                assert(mapped(files, base, object_root, binary_root)[k] == mapped(
                    front,
                    base,
                    object_root,
                    binary_root,
                )[k]);
            }
        }
    }
}

/// An ascending listing gives units in ascending order of their sources:
/// the order in which the units are built is fixed by the listing alone.
pub proof fn lemma_mapped_sources_ascending(
    files: Seq<Seq<char>>,
    base: Seq<char>,
    object_root: Seq<char>,
    binary_root: Seq<char>,
)
    requires
        strictly_ascending(files),
    ensures
        strictly_ascending(
            mapped(files, base, object_root, binary_root).map_values(|u: BuildUnitView| u.source),
        ),
{
    lemma_mapped_keeps_order(files, base, object_root, binary_root);
    let units = mapped(files, base, object_root, binary_root);
    let sources = units.map_values(|u: BuildUnitView| u.source);
    let idx = kept(files, base);
    assert forall|k: int, l: int| 0 <= k < l < sources.len() implies precedes(
        sources[k],
        sources[l],
    ) by {
        assert(Some(units[k]) == unit_of(files[idx[k]], base, object_root, binary_root));
        assert(Some(units[l]) == unit_of(files[idx[l]], base, object_root, binary_root));
        assert(idx[k] < idx[l]);
        assert(precedes(files[idx[k]], files[idx[l]]));
    }
}

/// Copies a text.
pub(crate) fn copy_text(s: &str) -> (r: String)
    ensures
        r@ == s@,
{
    s.to_owned()
}

/// Builds the unit of a source from its path relative to the base
/// directory, as far as it has one.
pub fn unit_from(
    source: &str,
    relative: Option<String>,
    object_root: &str,
    binary_root: &str,
) -> (unit: Option<BuildUnit>)
    ensures
        match unit {
            Some(u) => Some(u@),
            None => None,
        } == unit_with(
            source@,
            match relative {
                Some(rel) => Some(rel@),
                None => None,
            },
            object_root@,
            binary_root@,
        ),
{
    match relative {
        None => None,
        Some(rel) => {
            proof {
                reveal_strlit("o");
                reveal_strlit("");
            }
            let object = with_extension(join(object_root, rel.as_str()).as_str(), "o");
            let binary = with_extension(join(binary_root, rel.as_str()).as_str(), "");
            Some(BuildUnit { source: copy_text(source), relative: rel, object, binary })
        },
    }
}

/// Maps each source file to its build unit.
///
/// A file that does not lie below `base` is left out; the others keep
/// their order. Nothing is created on disk.
pub fn map_paths(files: &Vec<String>, base: &str, object_root: &str, binary_root: &str) -> (units:
    Vec<BuildUnit>)
    ensures
        unit_views(units@) == mapped(texts(files@), base@, object_root@, binary_root@),
        units.len() <= files.len(),
{
    let mut units: Vec<BuildUnit> = Vec::new();
    let mut i: usize = 0;
    while i < files.len()
        invariant
            i <= files.len(),
            units.len() <= i,
            unit_views(units@) == mapped(
                texts(files@).take(i as int),
                base@,
                object_root@,
                binary_root@,
            ),
        decreases files.len() - i,
    {
        let ghost done = unit_views(units@);
        let relative = strip_prefix(files[i].as_str(), base);
        let unit = unit_from(files[i].as_str(), relative, object_root, binary_root);
        proof {
            let next = texts(files@).take(i + 1);
            assert(next.drop_last() =~= texts(files@).take(i as int));
            assert(next.last() == files@[i as int]@);
        }
        match unit {
            None => {},
            Some(u) => {
                units.push(u);
                assert(unit_views(units@) =~= done.push(u@));
            },
        }
        i = i + 1;
    }
    assert(texts(files@).take(i as int) =~= texts(files@));
    units
}

} // verus!
