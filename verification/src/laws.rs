//! The general properties of the lifecycle, stated over the same transition
//! predicates that the operations' own postconditions use.

use vstd::prelude::*;

use crate::states::UserProfile;
use crate::states::UserRepos;
use crate::states::profile_wf;
use crate::states::repo_wf;
use crate::ops::repo_added;
use crate::ops::todo_added;
use crate::ops::todo_removed;

verus! {

/// Over any run of successful repository creations that starts from a fresh
/// profile, the live repository count equals the number of calls made so far
/// and equals the creation counter: repositories are never destroyed and
/// both counters move in lockstep.
pub proof fn lemma_repo_count_counts_calls(trace: Seq<UserProfile>)
    requires
        trace.len() > 0,
        trace[0].last_repo == 0,
        trace[0].repo_count == 0,
        forall|i: int| 0 <= i < trace.len() - 1 ==> repo_added(#[trigger] trace[i], trace[i + 1]),
    ensures
        forall|i: int|
            0 <= i < trace.len() ==> (#[trigger] trace[i]).repo_count == i
                && trace[i].last_repo == i,
    decreases trace.len(),
{
    if trace.len() > 1 {
        let prefix = trace.drop_last();
        assert forall|i: int| 0 <= i < prefix.len() - 1 implies repo_added(
            #[trigger] prefix[i],
            prefix[i + 1],
        ) by {
            assert(repo_added(trace[i], trace[i + 1]));
        }
        lemma_repo_count_counts_calls(prefix);
        assert(repo_added(trace[trace.len() - 2], trace[trace.len() - 1]));
        assert forall|i: int| 0 <= i < trace.len() implies trace[i].repo_count == i
            && trace[i].last_repo == i by {
            if i < trace.len() - 1 {
                assert(trace[i] == prefix[i]);
                assert(prefix[i].repo_count == i && prefix[i].last_repo == i);
            } else {
                let j = trace.len() - 2;
                assert(trace[j] == prefix[j]);
                assert(prefix[j].repo_count == j && prefix[j].last_repo == j);
                assert(repo_added(trace[j], trace[j + 1]));
            }
        }
    }
}

/// A successful to-do creation followed at once by a successful removal of
/// the same item restores the live count to its value before the creation,
/// while the creation counter keeps the value the creation gave it: the
/// spent index is never reused.
pub proof fn lemma_add_then_remove_restores_count(r0: UserRepos, r1: UserRepos, r2: UserRepos)
    requires
        todo_added(r0, r1),
        todo_removed(r1, r2),
    ensures
        r2.todo_count == r0.todo_count,
        r2.last_todo == r1.last_todo,
        r2.last_todo == r0.last_todo + 1,
{
}

/// Creating a repository keeps the profile well-formed: the live count and
/// the creation counter stay equal.
pub proof fn lemma_profile_wf_preserved(before: UserProfile, after: UserProfile)
    requires
        profile_wf(before),
        repo_added(before, after),
    ensures
        profile_wf(after),
{
}

/// Creating a to-do item keeps the repository well-formed: the live count
/// never exceeds the creation counter.
pub proof fn lemma_repo_wf_preserved_by_add(before: UserRepos, after: UserRepos)
    requires
        repo_wf(before),
        todo_added(before, after),
    ensures
        repo_wf(after),
{
}

/// Removing a to-do item keeps the repository well-formed: the live count
/// never exceeds the creation counter, and it never drops below zero.
pub proof fn lemma_repo_wf_preserved_by_remove(before: UserRepos, after: UserRepos)
    requires
        repo_wf(before),
        todo_removed(before, after),
    ensures
        repo_wf(after),
{
}

} // verus!
