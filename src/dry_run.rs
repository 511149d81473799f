//! The dry-run setting and the decision whether a release run is a dry run.
use vstd::prelude::*;
use vstd::string::*;
use crate::git::has_tag;
use crate::text::views;

verus! {

/// The argument that asks a command to simulate instead of act.
pub const DRY_RUN_ARG: &'static str = "--dry-run";

/// The branch from which real releases are made.
pub const RELEASE_BRANCH: &'static str = "master";

/// Whether mutating operations run for real or are simulated or skipped.
pub struct DryRunFlag {
    yes: bool,
}

impl DryRunFlag {
    /// A flag that is not set: operations run for real.
    pub fn new() -> (r: DryRunFlag)
        ensures
            !r.is_set(),
    {
        DryRunFlag { yes: false }
    }

    pub closed spec fn is_set(&self) -> bool {
        self.yes
    }

    /// Sets the flag to `yes`.
    pub fn set(&mut self, yes: bool)
        ensures
            final(self).is_set() == yes,
    {
        self.yes = yes;
    }

    /// Whether the flag is set.
    pub fn is_dry_run(&self) -> (r: bool)
        ensures
            r == self.is_set(),
    {
        self.yes
    }

    /// The simulate argument to append to a command: present exactly when
    /// the flag is set.
    pub fn get(&self) -> (r: Option<&'static str>)
        ensures
            r is Some <==> self.is_set(),
            r matches Some(a) ==> a@ == DRY_RUN_ARG@,
    {
        if self.yes {
            Some(DRY_RUN_ARG)
        } else {
            None
        }
    }
}

/// The release tag of `version`: `v` followed by the version.
pub open spec fn tag_of(version: Seq<char>) -> Seq<char> {
    seq!['v'] + version
}

/// The release tag of `version`.
pub fn release_tag(version: &str) -> (r: String)
    ensures
        r@ == tag_of(version@),
{
    proof {
        reveal_strlit("v");
    }
    String::from_str("v").concat(version)
}

/// A run is a dry run when it runs outside CI, when its tag already exists,
/// or when the branch is not the release branch.
pub open spec fn is_dry_run(
    in_ci: bool,
    tags: Seq<Seq<char>>,
    tag: Seq<char>,
    branch: Seq<char>,
) -> bool {
    !in_ci || tags.contains(tag) || branch != RELEASE_BRANCH@
}

/// The dry-run decision, given whether the CI marker is present, the
/// existing tags, the release tag and the current branch.
pub fn decide_dry_run(in_ci: bool, tags: &Vec<String>, tag: &str, branch: &str) -> (r: bool)
    ensures
        r == is_dry_run(in_ci, views(tags@), tag@, branch@),
{
    proof {
        reveal_strlit("master");
    }
    if !in_ci {
        return true;
    }
    if has_tag(tags, tag) {
        return true;
    }
    let b = branch.to_owned();
    let m = RELEASE_BRANCH.to_owned();
    !(b == m)
}

} // verus!
