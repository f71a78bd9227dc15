//! Source discovery: which of the probed file-system entries count as
//! assembly sources, and in which order they are listed.
//!
//! Probing the file system is the caller's business. It hands over one
//! [`Candidate`] per entry it looked at; this module decides which of them
//! are sources and puts their paths in order.

use vstd::prelude::*;

use crate::paths::{extension, extension_of, join, joined};
use crate::text::{
    compare, lemma_precedes_asymmetric, lemma_precedes_irreflexive, lemma_precedes_transitive,
    precedes, same_text, strictly_ascending, Placement,
};

verus! {

/// A path together with what a look at the file system told about it.
#[derive(Clone, Debug, PartialEq, Eq)]
pub struct Candidate {
    /// The path that was probed.
    pub path: String,
    /// Something exists at the path.
    pub exists: bool,
    /// It is a regular file.
    pub is_file: bool,
    /// The path itself is a symbolic link.
    pub is_symlink: bool,
}

/// The texts of a sequence of strings.
pub open spec fn texts(v: Seq<String>) -> Seq<Seq<char>> {
    v.map_values(|s: String| s@)
}

/// The extension is one of `s`, `S` and `asm`.
pub open spec fn is_source_extension(ext: Option<Seq<char>>) -> bool {
    ext == Some("s"@) || ext == Some("S"@) || ext == Some("asm"@)
}

/// The eligibility rule: an existing regular file that is no symbolic
/// link and carries a source extension.
pub open spec fn eligible(c: Candidate) -> bool {
    c.exists && c.is_file && !c.is_symlink && is_source_extension(extension_of(c.path@))
}

/// `p` is the path of an eligible entry.
pub open spec fn is_eligible_path(entries: Seq<Candidate>, p: Seq<char>) -> bool {
    exists|i: int| 0 <= i < entries.len() && eligible(#[trigger] entries[i]) && entries[i].path@ == p
}

/// `files` is a listing of the sources among `entries`: it holds the paths
/// of the eligible entries and nothing else, each once, in ascending
/// lexicographic order. Where the base directory does not exist, it is
/// empty.
pub open spec fn is_listing(files: Seq<Seq<char>>, base_exists: bool, entries: Seq<Candidate>) -> bool {
    &&& strictly_ascending(files)
    &&& forall|p: Seq<char>| #[trigger]
        files.contains(p) <==> base_exists && is_eligible_path(entries, p)
}

/// The listing of the sources among `entries`. There is exactly one, see
/// [`lemma_listing_unique`].
pub open spec fn discovered(base_exists: bool, entries: Seq<Candidate>) -> Seq<Seq<char>> {
    choose|files: Seq<Seq<char>>| is_listing(files, base_exists, entries)
}

/// Two ascending sequences with the same members are the same sequence.
pub proof fn lemma_ascending_unique(s: Seq<Seq<char>>, t: Seq<Seq<char>>)
    requires
        strictly_ascending(s),
        strictly_ascending(t),
        forall|p: Seq<char>| s.contains(p) <==> t.contains(p),
    ensures
        s == t,
    decreases s.len(),
{
    if s.len() == 0 {
        if t.len() > 0 {
            assert(t.contains(t[0]));
        }
        assert(s =~= t);
    } else {
        assert(s.contains(s[0]));
        assert(t.contains(s[0]));
        let j = choose|j: int| 0 <= j < t.len() && t[j] == s[0];
        assert(t.contains(t[0]));
        assert(s.contains(t[0]));
        let i = choose|i: int| 0 <= i < s.len() && s[i] == t[0];
        if i > 0 {
            assert(precedes(s[0], s[i]));
            if j > 0 {
                assert(precedes(t[0], t[j]));
                lemma_precedes_asymmetric(s[0], t[0]);
            } else {
                lemma_precedes_irreflexive(s[0]);
            }
        }
        assert(s[0] == t[0]);
        let s1 = s.drop_first();
        let t1 = t.drop_first();
        assert forall|p: Seq<char>| s1.contains(p) <==> t1.contains(p) by {
            if s1.contains(p) {
                let a = choose|a: int| 0 <= a < s1.len() && s1[a] == p;
                assert(s[a + 1] == p);
                assert(s.contains(p));
                let b = choose|b: int| 0 <= b < t.len() && t[b] == p;
                assert(precedes(s[0], s[a + 1]));
                if b == 0 {
                    lemma_precedes_irreflexive(p);
                }
                assert(t1[b - 1] == p);
            }
            if t1.contains(p) {
                let b = choose|b: int| 0 <= b < t1.len() && t1[b] == p;
                assert(t[b + 1] == p);
                assert(t.contains(p));
                let a = choose|a: int| 0 <= a < s.len() && s[a] == p;
                assert(precedes(t[0], t[b + 1]));
                if a == 0 {
                    lemma_precedes_irreflexive(p);
                }
                assert(s1[a - 1] == p);
            }
        }
        assert(strictly_ascending(s1)) by {
            assert forall|a: int, b: int| 0 <= a < b < s1.len() implies precedes(s1[a], s1[b]) by {
                assert(precedes(s[a + 1], s[b + 1]));
            }
        }
        assert(strictly_ascending(t1)) by {
            assert forall|a: int, b: int| 0 <= a < b < t1.len() implies precedes(t1[a], t1[b]) by {
                assert(precedes(t[a + 1], t[b + 1]));
            }
        }
        lemma_ascending_unique(s1, t1);
        assert(s =~= seq![s[0]] + s1);
        assert(t =~= seq![t[0]] + t1);
    }
}

/// A set of probed entries has one listing and no other.
pub proof fn lemma_listing_unique(
    s: Seq<Seq<char>>,
    t: Seq<Seq<char>>,
    base_exists: bool,
    entries: Seq<Candidate>,
)
    requires
        is_listing(s, base_exists, entries),
        is_listing(t, base_exists, entries),
    ensures
        s == t,
{
    assert forall|p: Seq<char>| s.contains(p) <==> t.contains(p) by {
        assert(s.contains(p) <==> base_exists && is_eligible_path(entries, p));
        assert(t.contains(p) <==> base_exists && is_eligible_path(entries, p));
    }
    lemma_ascending_unique(s, t);
}

/// Tells whether an extension marks an assembly source.
pub fn source_extension(ext: &Option<String>) -> (r: bool)
    ensures
        r == is_source_extension(
            match *ext {
                Some(e) => Some(e@),
                None => None,
            },
        ),
{
    match ext {
        None => false,
        Some(e) => same_text(e.as_str(), "s") || same_text(e.as_str(), "S") || same_text(
            e.as_str(),
            "asm",
        ),
    }
}

/// The eligibility rule, applied to one probed entry.
pub fn filter(c: &Candidate) -> (r: bool)
    ensures
        r == eligible(*c),
{
    if !(c.exists && c.is_file && !c.is_symlink) {
        return false;
    }
    let ext = extension(c.path.as_str());
    source_extension(&ext)
}

/// The paths to probe for an explicit list of files: each entry of the
/// list joined onto the base directory, in the order of the list.
pub fn candidate_paths(files: &Vec<String>, base: &str) -> (paths: Vec<String>)
    ensures
        paths.len() == files.len(),
        forall|i: int| 0 <= i < files.len() ==> (#[trigger] paths[i])@ == joined(base@, files[i]@),
{
    let mut paths: Vec<String> = Vec::new();
    let mut i: usize = 0;
    while i < files.len()
        invariant
            i <= files.len(),
            paths.len() == i,
            forall|j: int| 0 <= j < i ==> (#[trigger] paths[j])@ == joined(base@, files[j]@),
        decreases files.len() - i,
    {
        paths.push(join(base, files[i].as_str()));
        i = i + 1;
    }
    paths
}

/// Puts `path` into an ascending vector at its place, unless the vector
/// holds it already.
fn insert_ascending(files: &mut Vec<String>, path: String)
    requires
        strictly_ascending(texts(old(files)@)),
    ensures
        strictly_ascending(texts(final(files)@)),
        forall|p: Seq<char>| #[trigger]
            texts(final(files)@).contains(p) <==> texts(old(files)@).contains(p) || p == path@,
{
    let ghost before = texts(files@);
    let mut at: usize = 0;
    while at < files.len()
        invariant
            at <= files.len(),
            files@ == old(files)@,
            before == texts(files@),
            strictly_ascending(before),
            forall|j: int| 0 <= j < at ==> precedes(before[j], path@),
        ensures
            at <= files.len(),
            files@ == old(files)@,
            forall|j: int| 0 <= j < at ==> precedes(before[j], path@),
            at < files.len() ==> precedes(path@, before[at as int]),
        decreases files.len() - at,
    {
        match compare(files[at].as_str(), path.as_str()) {
            Placement::Before => {
                at = at + 1;
            },
            Placement::Same => {
                assert(before[at as int] == path@);
                assert(before.contains(path@));
                return ;
            },
            Placement::After => {
                break ;
            },
        }
    }
    assert forall|j: int| at <= j < before.len() implies precedes(path@, before[j]) by {
        if j > at {
            assert(precedes(before[at as int], before[j]));
            lemma_precedes_transitive(path@, before[at as int], before[j]);
        }
    }
    let ghost text = path@;
    files.insert(at, path);
    let ghost after = texts(files@);
    assert(after =~= before.insert(at as int, text));
    assert forall|a: int, b: int| 0 <= a < b < after.len() implies precedes(after[a], after[b]) by {
        if b < at {
            assert(after[a] == before[a] && after[b] == before[b]);
        } else if b == at {
            assert(after[a] == before[a]);
        } else if a < at {
            assert(after[a] == before[a] && after[b] == before[b - 1]);
        } else if a == at {
            assert(after[b] == before[b - 1]);
        } else {
            assert(after[a] == before[a - 1] && after[b] == before[b - 1]);
        }
    }
    assert forall|p: Seq<char>| #[trigger] after.contains(p) <==> before.contains(p) || p == text by {
        if after.contains(p) {
            let k = choose|k: int| 0 <= k < after.len() && after[k] == p;
            if k < at {
                assert(before[k] == p);
            } else if k > at {
                assert(before[k - 1] == p);
            }
        }
        if before.contains(p) {
            let k = choose|k: int| 0 <= k < before.len() && before[k] == p;
            if k < at {
                assert(after[k] == p);
            } else {
                assert(after[k + 1] == p);
            }
        }
        if p == text {
            assert(after[at as int] == p);
        }
    }
}

/// Lists the assembly sources among the probed entries.
///
/// `base_exists` tells whether the base directory exists; without it
/// nothing is listed. Otherwise the listing holds the path of every
/// eligible entry, each once, in ascending lexicographic order.
pub fn read_files(base_exists: bool, entries: &Vec<Candidate>) -> (files: Vec<String>)
    ensures
        is_listing(texts(files@), base_exists, entries@),
        texts(files@) == discovered(base_exists, entries@),
        !base_exists ==> files.len() == 0,
{
    let mut files: Vec<String> = Vec::new();
    if base_exists {
        let mut i: usize = 0;
        while i < entries.len()
            invariant
                i <= entries.len(),
                strictly_ascending(texts(files@)),
                forall|p: Seq<char>| #[trigger]
                    texts(files@).contains(p) <==> is_eligible_path(entries@.take(i as int), p),
            decreases entries.len() - i,
        {
            let ghost seen = entries@.take(i as int);
            let ghost next = entries@.take(i + 1);
            let ghost listed = texts(files@);
            if filter(&entries[i]) {
                insert_ascending(&mut files, entries[i].path.clone());
            }
            proof {
                assert forall|p: Seq<char>| #[trigger]
                    texts(files@).contains(p) <==> is_eligible_path(next, p) by {
                    if is_eligible_path(next, p) {
                        let k = choose|k: int| 0 <= k < next.len() && eligible(#[trigger] next[k]) && next[k].path@ == p;
                        if k < i {
                            assert(seen[k] == next[k]);
                            assert(is_eligible_path(seen, p));
                        }
                    }
                    if is_eligible_path(seen, p) {
                        let k = choose|k: int| 0 <= k < seen.len() && eligible(#[trigger] seen[k]) && seen[k].path@ == p;
                        assert(next[k] == seen[k]);
                    }
                    if eligible(entries@[i as int]) && p == entries@[i as int].path@ {
                        assert(next[i as int] == entries@[i as int]);
                    }
                    assert(listed.contains(p) <==> is_eligible_path(seen, p));
                }
            }
            i = i + 1;
        }
        assert(entries@.take(i as int) =~= entries@);
    } else {
        assert(texts(files@) =~= Seq::<Seq<char>>::empty());
    }
    proof {
        assert(is_listing(texts(files@), base_exists, entries@));
        lemma_listing_unique(texts(files@), discovered(base_exists, entries@), base_exists, entries@);
    }
    files
}

} // verus!
