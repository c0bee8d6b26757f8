//! The search for the project root: the nearest directory, from the working
//! directory upward, that holds a marker file.

use vstd::prelude::*;

verus! {

/// The two files that mark a project root.
#[derive(Clone, Copy, Debug, PartialEq, Eq, Structural)]
pub enum Marker {
    /// The developer's own configuration file.
    Local,
    /// The configuration file that the project distributes.
    Distributed,
}

/// What was found in one directory on the way up.
#[derive(Debug)]
pub struct DirProbe {
    /// The directory.
    pub dir: String,
    /// Whether it holds the local marker file.
    pub has_local: bool,
    /// Whether it holds the distributed marker file.
    pub has_distributed: bool,
}

/// The directory that was found to be the project root.
#[derive(Debug)]
pub struct ProjectRoot {
    /// How many steps up from the working directory it lies.
    pub level: usize,
    /// The directory.
    pub dir: String,
    /// The marker that it was known by: the local one where it holds both.
    pub marker: Marker,
}

impl DirProbe {
    /// The directory holds a marker file.
    pub open spec fn marked(&self) -> bool {
        self.has_local || self.has_distributed
    }

    /// The marker that the directory is known by: the local one where it
    /// holds both.
    pub open spec fn marker(&self) -> Marker {
        if self.has_local {
            Marker::Local
        } else {
            Marker::Distributed
        }
    }
}

/// No directory on the way up holds a marker file.
pub open spec fn unmarked(levels: Seq<DirProbe>) -> bool {
    forall|i: int| 0 <= i < levels.len() ==> !(#[trigger] levels[i]).marked()
}

/// The directory at `level` holds a marker file and none nearer to the
/// working directory does.
pub open spec fn is_root_level(levels: Seq<DirProbe>, level: int) -> bool {
    &&& 0 <= level < levels.len()
    &&& levels[level].marked()
    &&& forall|j: int| 0 <= j < level ==> !(#[trigger] levels[j]).marked()
}

/// `root` is the root that the probes `levels` show.
pub open spec fn is_root_of(levels: Seq<DirProbe>, root: ProjectRoot) -> bool {
    &&& is_root_level(levels, root.level as int)
    &&& root.dir@ == levels[root.level as int].dir@
    &&& root.marker == levels[root.level as int].marker()
}

/// Finds the project root among the directories from the working directory
/// (first) up to the filesystem root (last): the nearest one that holds a
/// marker file, if any does.
pub fn find_project_root(levels: &Vec<DirProbe>) -> (r: Option<ProjectRoot>)
    ensures
        match r {
            Some(root) => is_root_of(levels@, root),
            None => unmarked(levels@),
        },
{
    let mut i: usize = 0;
    while i < levels.len()
        invariant
            i <= levels@.len(),
            forall|j: int| 0 <= j < i ==> !(#[trigger] levels@[j]).marked(),
        decreases levels@.len() - i,
    {
        let probe = &levels[i];
        if probe.has_local {
            return Some(ProjectRoot { level: i, dir: probe.dir.clone(), marker: Marker::Local });
        }
        if probe.has_distributed {
            return Some(
                ProjectRoot { level: i, dir: probe.dir.clone(), marker: Marker::Distributed },
            );
        }
        i = i + 1;
    }
    None
}

/// Where no directory up to the filesystem root holds a marker file, no
/// level is the root.
pub proof fn lemma_no_marker_no_root(levels: Seq<DirProbe>, level: int)
    requires
        unmarked(levels),
    ensures
        !is_root_level(levels, level),
{
}

/// The probes show one root level at most.
pub proof fn lemma_root_level_is_unique(levels: Seq<DirProbe>, a: int, b: int)
    requires
        is_root_level(levels, a),
        is_root_level(levels, b),
    ensures
        a == b,
{
}

/// A local marker at a level that has no marker nearer to the working
/// directory makes that level the root, whatever distributed markers lie
/// further up.
pub proof fn lemma_nearer_local_marker_wins(levels: Seq<DirProbe>, local: int, distributed: int)
    requires
        0 <= local < distributed < levels.len(),
        levels[local].has_local,
        levels[distributed].has_distributed,
        forall|j: int| 0 <= j < local ==> !(#[trigger] levels[j]).marked(),
    ensures
        is_root_level(levels, local),
        !is_root_level(levels, distributed),
        levels[local].marker() == Marker::Local,
{
}

} // verus!
