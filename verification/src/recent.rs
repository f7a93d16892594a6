//! The list of recently opened repositories: most recent first, each path
//! once, ten entries at most.

use vstd::prelude::*;
use vstd::string::*;
use crate::model::{RecentRepo, RecentRepoView};

verus! {

/// How many repositories the list holds at most.
pub const RECENT_LIMIT: usize = 10;

/// The views of a sequence of entries.
pub open spec fn recents_view(repos: Seq<RecentRepo>) -> Seq<RecentRepoView> {
    repos.map_values(|r: RecentRepo| r@)
}

/// `repos` without the entries for `path`.
pub open spec fn without_path(repos: Seq<RecentRepoView>, path: Seq<char>) -> Seq<RecentRepoView>
    decreases repos.len(),
{
    if repos.len() == 0 {
        Seq::empty()
    } else {
        let before = without_path(repos.drop_last(), path);
        if repos.last().path == path {
            before
        } else {
            before.push(repos.last())
        }
    }
}

/// The entry for a repository opened at `now`: named by the last part of its
/// path, or `Unknown` where the path has none.
pub open spec fn recent_entry(
    path: Seq<char>,
    file_name: Option<Seq<char>>,
    now: Seq<char>,
) -> RecentRepoView {
    RecentRepoView {
        path,
        name: match file_name {
            Some(n) => n,
            None => "Unknown"@,
        },
        last_opened: now,
    }
}

/// The list after the repository at `path` was opened: its entry first, then
/// the entries for other paths in their order, cut to the limit.
pub open spec fn remembered(
    repos: Seq<RecentRepoView>,
    path: Seq<char>,
    file_name: Option<Seq<char>>,
    now: Seq<char>,
) -> Seq<RecentRepoView> {
    let all = seq![recent_entry(path, file_name, now)] + without_path(repos, path);
    if all.len() <= RECENT_LIMIT {
        all
    } else {
        all.take(RECENT_LIMIT as int)
    }
}

/// The list of recent repositories after the one at `path` was opened at
/// `now`. `file_name` is the last part of the path, as far as it has one.
pub fn remember_repo(
    repos: &Vec<RecentRepo>,
    path: &str,
    file_name: Option<&str>,
    now: &str,
) -> (list: Vec<RecentRepo>)
    ensures
        recents_view(list@) == remembered(
            recents_view(repos@),
            path@,
            match file_name {
                Some(n) => Some(n@),
                None => None,
            },
            now@,
        ),
{
    let ghost rv = recents_view(repos@);
    let ghost name_view: Option<Seq<char>> = match file_name {
        Some(n) => Some(n@),
        None => None,
    };
    let ghost entry = recent_entry(path@, name_view, now@);
    let path_owned = path.to_owned();
    let name = match file_name {
        Some(n) => n.to_owned(),
        None => "Unknown".to_owned(),
    };
    let mut list: Vec<RecentRepo> = Vec::new();
    list.push(RecentRepo { path: path.to_owned(), name, last_opened: now.to_owned() });
    proof {
        assert(recents_view(list@) =~= seq![entry] + without_path(rv.take(0), path@));
    }
    let mut i: usize = 0;
    while i < repos.len()
        invariant
            i <= repos.len(),
            rv == recents_view(repos@),
            path_owned@ == path@,
            recents_view(list@) == seq![entry] + without_path(rv.take(i as int), path@),
        decreases repos.len() - i,
    {
        let repo = &repos[i];
        proof {
            assert(rv.take(i + 1).drop_last() =~= rv.take(i as int));
            assert(rv.take(i + 1).last() == repo@);
        }
        if !(repo.path == path_owned) {
            let kept = RecentRepo {
                path: repo.path.clone(),
                name: repo.name.clone(),
                last_opened: repo.last_opened.clone(),
            };
            proof {
                let rest = without_path(rv.take(i as int), path@);
                assert(kept@ == repo@);
                assert(recents_view(list@.push(kept)) =~= recents_view(list@).push(kept@));
                assert((seq![entry] + rest).push(repo@) =~= seq![entry] + rest.push(repo@));
            }
            list.push(kept);
        }
        i += 1;
    }
    proof {
        assert(rv.take(repos@.len() as int) =~= rv);
    }
    if list.len() > RECENT_LIMIT {
        let ghost full = recents_view(list@);
        list.truncate(RECENT_LIMIT);
        proof {
            assert(recents_view(list@) =~= full.take(RECENT_LIMIT as int));
        }
    }
    list
}

/// What is kept of a list: only entries of the list, none of them for the
/// path that is taken out.
pub proof fn lemma_without_path(repos: Seq<RecentRepoView>, path: Seq<char>)
    ensures
        without_path(repos, path).len() <= repos.len(),
        forall|i: int|
            0 <= i < without_path(repos, path).len() ==> {
                &&& (#[trigger] without_path(repos, path)[i]).path != path
                &&& repos.contains(without_path(repos, path)[i])
            },
    decreases repos.len(),
{
    if repos.len() > 0 {
        let shorter = repos.drop_last();
        let before = without_path(shorter, path);
        let all = without_path(repos, path);
        lemma_without_path(shorter, path);
        assert forall|i: int| 0 <= i < all.len() implies {
            &&& (#[trigger] all[i]).path != path
            &&& repos.contains(all[i])
        } by {
            if i < before.len() {
                assert(shorter.contains(before[i]));
                let j = choose|j: int| 0 <= j < shorter.len() && shorter[j] == before[i];
                assert(repos[j] == all[i]);
            } else {
                assert(repos[repos.len() - 1] == all[i]);
            }
        }
    }
}

/// The list of recent repositories never holds more than ten entries; the
/// repository opened last stands first, and it stands there only; every
/// other entry was in the list before.
pub proof fn law_recent_list_is_capped_and_fresh(
    repos: Seq<RecentRepoView>,
    path: Seq<char>,
    file_name: Option<Seq<char>>,
    now: Seq<char>,
)
    ensures
        1 <= remembered(repos, path, file_name, now).len() <= RECENT_LIMIT,
        remembered(repos, path, file_name, now)[0] == recent_entry(path, file_name, now),
        forall|i: int|
            1 <= i < remembered(repos, path, file_name, now).len() ==> {
                &&& (#[trigger] remembered(repos, path, file_name, now)[i]).path != path
                &&& repos.contains(remembered(repos, path, file_name, now)[i])
            },
{
    lemma_without_path(repos, path);
    let rest = without_path(repos, path);
    let list = remembered(repos, path, file_name, now);
    assert forall|i: int| 1 <= i < list.len() implies {
        &&& (#[trigger] list[i]).path != path
        &&& repos.contains(list[i])
    } by {
        assert(list[i] == rest[i - 1]);
    }
}

} // verus!
