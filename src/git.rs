//! Version control: the commands run, and what is made of their output.
use vstd::prelude::*;
use vstd::string::*;
use crate::dry_run::DryRunFlag;
use crate::text::{argv, lines, trim, trim_str, trimmed_lines, views};

verus! {

/// The command that prints the checked-out branch.
pub fn current_branch_command() -> (r: Vec<String>)
    ensures
        views(r@) == seq!["git"@, "branch"@, "--show-current"@],
{
    let r = argv(&["git", "branch", "--show-current"]);
    assert(views(r@) =~= seq!["git"@, "branch"@, "--show-current"@]);
    r
}

/// The branch name in the output of `current_branch_command`.
pub fn branch_from_output(output: &str) -> (r: String)
    ensures
        r@ == trim(output@),
{
    trim_str(output)
}

/// The command that lists the tags, one per line.
pub fn tag_list_command() -> (r: Vec<String>)
    ensures
        views(r@) == seq!["git"@, "tag"@, "--list"@],
{
    let r = argv(&["git", "tag", "--list"]);
    assert(views(r@) =~= seq!["git"@, "tag"@, "--list"@]);
    r
}

/// The tags in the output of `tag_list_command`: its lines, trimmed.
pub fn tags_from_output(output: &str) -> (r: Vec<String>)
    ensures
        views(r@) == lines(output@).map_values(|l: Seq<char>| trim(l)),
{
    trimmed_lines(output)
}

/// Whether `tags` holds `tag`.
pub fn has_tag(tags: &Vec<String>, tag: &str) -> (r: bool)
    ensures
        r == views(tags@).contains(tag@),
{
    let wanted = tag.to_owned();
    let mut i: usize = 0;
    while i < tags.len()
        invariant
            i <= tags@.len(),
            wanted@ == tag@,
            forall|j: int| 0 <= j < i ==> tags@[j]@ != tag@,
        decreases tags@.len() - i,
    {
        if tags[i] == wanted {
            assert(views(tags@)[i as int] == tag@);
            return true;
        }
        i = i + 1;
    }
    assert(!views(tags@).contains(tag@)) by {
        if views(tags@).contains(tag@) {
            let j = choose|j: int| 0 <= j < views(tags@).len() && views(tags@)[j] == tag@;
            assert(tags@[j]@ == tag@);
        }
    }
    false
}

/// Whether a tag is listed does not depend on the order of the list: two
/// lists with the same tags, in any order, agree on every tag.
pub proof fn lemma_has_tag_order_free(a: Seq<Seq<char>>, b: Seq<Seq<char>>, tag: Seq<char>)
    requires
        a.to_multiset() == b.to_multiset(),
    ensures
        a.contains(tag) == b.contains(tag),
{
    vstd::seq_lib::to_multiset_contains(a, tag);
    vstd::seq_lib::to_multiset_contains(b, tag);
}

/// The command that creates tag `tag`, or none when `flag` is set.
pub fn tag_command(tag: &str, flag: &DryRunFlag) -> (r: Option<Vec<String>>)
    ensures
        flag.is_set() ==> r is None,
        !flag.is_set() ==> (r matches Some(c) && views(c@) == seq!["git"@, "tag"@, tag@]),
{
    if flag.is_dry_run() {
        return None;
    }
    let mut r = argv(&["git", "tag"]);
    r.push(tag.to_owned());
    assert(views(r@) =~= seq!["git"@, "tag"@, tag@]);
    Some(r)
}

/// The command that pushes all tags, or none when `flag` is set: a
/// simulated push fails on a fork without push rights, so it is skipped.
pub fn push_tags_command(flag: &DryRunFlag) -> (r: Option<Vec<String>>)
    ensures
        flag.is_set() ==> r is None,
        !flag.is_set() ==> (r matches Some(c) && views(c@) == seq!["git"@, "push"@, "--tags"@]),
{
    if flag.is_dry_run() {
        return None;
    }
    let r = argv(&["git", "push", "--tags"]);
    assert(views(r@) =~= seq!["git"@, "push"@, "--tags"@]);
    Some(r)
}

} // verus!
