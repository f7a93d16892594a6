//! Who may work on a repository at a time. Operations that only read may
//! run beside each other; an operation that changes the repository runs
//! alone. The ledger keeps, by repository path, the operations that were let
//! in, and says whether another may join them.

use vstd::prelude::*;
use vstd::string::*;
use crate::model::texts_view;

verus! {

/// What an operation does to the repository.
#[derive(Clone, Copy, Debug, PartialEq, Eq, Structural)]
pub enum Access {
    /// It only reads: status, history, diffs.
    Read,
    /// It changes the index, the references or the working tree.
    Write,
}

/// The operations at work: for each reading one its path, as often as there
/// are readers, and for each changing one its path.
#[derive(Debug, Clone, PartialEq, Eq)]
pub struct AccessLedger {
    pub readers: Vec<String>,
    pub writers: Vec<String>,
}

pub struct AccessLedgerView {
    pub readers: Seq<Seq<char>>,
    pub writers: Seq<Seq<char>>,
}

impl View for AccessLedger {
    type V = AccessLedgerView;

    open spec fn view(&self) -> AccessLedgerView {
        AccessLedgerView { readers: texts_view(self.readers@), writers: texts_view(self.writers@) }
    }
}

/// No repository is changed by two operations at a time, and none is read
/// while it is changed.
pub open spec fn exclusive(l: AccessLedgerView) -> bool {
    &&& l.writers.no_duplicates()
    &&& forall|path: Seq<char>| !(l.writers.contains(path) && l.readers.contains(path))
}

/// Whether an operation on `path` may join those at work: a reading one
/// unless the repository is being changed, a changing one only when no
/// operation is at work on it.
pub open spec fn may_enter(l: AccessLedgerView, path: Seq<char>, access: Access) -> bool {
    match access {
        Access::Read => !l.writers.contains(path),
        Access::Write => !l.writers.contains(path) && !l.readers.contains(path),
    }
}

/// The ledger with one more operation on `path`.
pub open spec fn entered(l: AccessLedgerView, path: Seq<char>, access: Access) -> AccessLedgerView {
    match access {
        Access::Read => AccessLedgerView { readers: l.readers.push(path), ..l },
        Access::Write => AccessLedgerView { writers: l.writers.push(path), ..l },
    }
}

/// `paths` without the first occurrence of `path`.
pub open spec fn without_first(paths: Seq<Seq<char>>, path: Seq<char>) -> Seq<Seq<char>>
    decreases paths.len(),
{
    if paths.len() == 0 {
        paths
    } else if paths[0] == path {
        paths.skip(1)
    } else {
        seq![paths[0]] + without_first(paths.skip(1), path)
    }
}

/// Taking out the first occurrence is removing at its position; where there
/// is none, nothing is taken out.
pub proof fn lemma_without_first_at(paths: Seq<Seq<char>>, path: Seq<char>, i: int)
    requires
        0 <= i <= paths.len(),
        forall|j: int| 0 <= j < i ==> paths[j] != path,
        i < paths.len() ==> paths[i] == path,
    ensures
        without_first(paths, path) == (if i < paths.len() {
            paths.remove(i)
        } else {
            paths
        }),
    decreases i,
{
    if paths.len() == 0 {
    } else if i == 0 {
        assert(paths.skip(1) =~= paths.remove(0));
    } else {
        let rest = paths.skip(1);
        assert forall|j: int| 0 <= j < i - 1 implies rest[j] != path by {
            assert(rest[j] == paths[j + 1]);
        }
        lemma_without_first_at(rest, path, i - 1);
        if i < paths.len() {
            assert(seq![paths[0]] + rest.remove(i - 1) =~= paths.remove(i));
        } else {
            assert(seq![paths[0]] + rest =~= paths);
        }
    }
}

/// The ledger with one operation on `path` less, where there was one.
pub open spec fn released(l: AccessLedgerView, path: Seq<char>, access: Access) -> AccessLedgerView {
    match access {
        Access::Read => AccessLedgerView { readers: without_first(l.readers, path), ..l },
        Access::Write => AccessLedgerView { writers: without_first(l.writers, path), ..l },
    }
}

fn position(paths: &Vec<String>, path: &String) -> (r: Option<usize>)
    ensures
        match r {
            Some(i) => i < paths.len() && texts_view(paths@)[i as int] == path@ && forall|j: int|
                0 <= j < i ==> texts_view(paths@)[j] != path@,
            None => !texts_view(paths@).contains(path@),
        },
{
    let mut i: usize = 0;
    while i < paths.len()
        invariant
            i <= paths.len(),
            forall|j: int| 0 <= j < i ==> texts_view(paths@)[j] != path@,
        decreases paths.len() - i,
    {
        if paths[i] == *path {
            return Some(i);
        }
        i += 1;
    }
    None
}

fn remove_first(paths: &mut Vec<String>, path: &String)
    ensures
        texts_view(final(paths)@) == without_first(texts_view(old(paths)@), path@),
{
    match position(paths, path) {
        Some(i) => {
            let ghost before = texts_view(paths@);
            proof {
                lemma_without_first_at(before, path@, i as int);
            }
            paths.remove(i);
            proof {
                assert(texts_view(paths@) =~= before.remove(i as int));
            }
        },
        None => {
            proof {
                let all = texts_view(paths@);
                assert forall|j: int| 0 <= j < all.len() implies all[j] != path@ by {
                    if all[j] == path@ {
                        assert(all.contains(path@));
                    }
                }
                lemma_without_first_at(all, path@, all.len() as int);
            }
        },
    }
}

impl AccessLedger {
    /// A ledger with no operation at work.
    pub fn new() -> (l: AccessLedger)
        ensures
            l@.readers.len() == 0,
            l@.writers.len() == 0,
            exclusive(l@),
    {
        AccessLedger { readers: Vec::new(), writers: Vec::new() }
    }

    /// Lets an operation on `path` in where it may join those at work, and
    /// says whether it did. The ledger stays exclusive.
    pub fn enter(&mut self, path: &str, access: Access) -> (granted: bool)
        ensures
            granted == may_enter(old(self)@, path@, access),
            final(self)@ == (if granted {
                entered(old(self)@, path@, access)
            } else {
                old(self)@
            }),
            exclusive(old(self)@) ==> exclusive(final(self)@),
    {
        let owned = path.to_owned();
        let changing = position(&self.writers, &owned).is_some();
        if changing {
            return false;
        }
        let ghost before = self@;
        match access {
            Access::Read => {
                self.readers.push(owned);
                proof {
                    assert(self@.readers =~= before.readers.push(path@));
                    if exclusive(before) {
                        lemma_entered_stays_exclusive(before, path@, access);
                    }
                }
                true
            },
            Access::Write => {
                let reading = position(&self.readers, &owned).is_some();
                if reading {
                    false
                } else {
                    self.writers.push(owned);
                    proof {
                        assert(self@.writers =~= before.writers.push(path@));
                        if exclusive(before) {
                            lemma_entered_stays_exclusive(before, path@, access);
                        }
                    }
                    true
                }
            },
        }
    }

    /// Strikes one operation on `path` off the ledger, where there is one.
    /// The ledger stays exclusive.
    pub fn release(&mut self, path: &str, access: Access)
        ensures
            final(self)@ == released(old(self)@, path@, access),
            exclusive(old(self)@) ==> exclusive(final(self)@),
    {
        let owned = path.to_owned();
        proof {
            lemma_released_stays_exclusive(self@, path@, access);
        }
        match access {
            Access::Read => remove_first(&mut self.readers, &owned),
            Access::Write => remove_first(&mut self.writers, &owned),
        }
    }
}

/// Letting an operation in that may enter keeps the ledger exclusive.
pub proof fn lemma_entered_stays_exclusive(l: AccessLedgerView, path: Seq<char>, access: Access)
    requires
        exclusive(l),
        may_enter(l, path, access),
    ensures
        exclusive(entered(l, path, access)),
{
    let after = entered(l, path, access);
    match access {
        Access::Read => {
            assert forall|p: Seq<char>| !(after.writers.contains(p) && after.readers.contains(
                p,
            )) by {
                if after.writers.contains(p) && after.readers.contains(p) {
                    let i = choose|i: int| 0 <= i < after.readers.len() && after.readers[i] == p;
                    if i < l.readers.len() {
                        assert(l.readers[i] == p);
                        assert(l.readers.contains(p));
                    }
                }
            }
        },
        Access::Write => {
            assert forall|p: Seq<char>| !(after.writers.contains(p) && after.readers.contains(
                p,
            )) by {
                if after.writers.contains(p) && after.readers.contains(p) {
                    let i = choose|i: int| 0 <= i < after.writers.len() && after.writers[i] == p;
                    if i < l.writers.len() {
                        assert(l.writers[i] == p);
                        assert(l.writers.contains(p));
                    }
                }
            }
            assert forall|i: int, j: int|
                0 <= i < after.writers.len() && 0 <= j < after.writers.len() && i != j implies after.writers[i]
                != after.writers[j] by {
                if i < l.writers.len() && j < l.writers.len() {
                    assert(l.writers[i] != l.writers[j]);
                } else if i < l.writers.len() {
                    assert(l.writers.contains(l.writers[i]));
                } else {
                    assert(l.writers.contains(l.writers[j]));
                }
            }
        },
    }
}

/// What is left of `paths` without the first occurrence of `path` occurs in
/// `paths`, and holds nothing twice where `paths` does not.
pub proof fn lemma_without_first(paths: Seq<Seq<char>>, path: Seq<char>)
    ensures
        forall|p: Seq<char>| without_first(paths, path).contains(p) ==> paths.contains(p),
        paths.no_duplicates() ==> without_first(paths, path).no_duplicates(),
    decreases paths.len(),
{
    let rest = without_first(paths, path);
    if paths.len() == 0 {
    } else if paths[0] == path {
        assert forall|p: Seq<char>| rest.contains(p) implies paths.contains(p) by {
            let i = choose|i: int| 0 <= i < rest.len() && rest[i] == p;
            assert(paths[i + 1] == p);
        }
        if paths.no_duplicates() {
            assert forall|i: int, j: int|
                0 <= i < rest.len() && 0 <= j < rest.len() && i != j implies rest[i] != rest[j] by {
                assert(rest[i] == paths[i + 1]);
                assert(rest[j] == paths[j + 1]);
            }
        }
    } else {
        let tail = paths.skip(1);
        let kept = without_first(tail, path);
        lemma_without_first(tail, path);
        assert forall|p: Seq<char>| rest.contains(p) implies paths.contains(p) by {
            let i = choose|i: int| 0 <= i < rest.len() && rest[i] == p;
            if i == 0 {
                assert(paths[0] == p);
            } else {
                assert(kept[i - 1] == p);
                assert(kept.contains(p));
                assert(tail.contains(p));
                let j = choose|j: int| 0 <= j < tail.len() && tail[j] == p;
                assert(paths[j + 1] == p);
            }
        }
        if paths.no_duplicates() {
            assert forall|i: int, j: int|
                0 <= i < tail.len() && 0 <= j < tail.len() && i != j implies tail[i] != tail[j] by {
                assert(tail[i] == paths[i + 1]);
                assert(tail[j] == paths[j + 1]);
            }
            assert forall|i: int, j: int|
                0 <= i < rest.len() && 0 <= j < rest.len() && i != j implies rest[i] != rest[j] by {
                if i > 0 && j > 0 {
                    assert(rest[i] == kept[i - 1]);
                    assert(rest[j] == kept[j - 1]);
                } else {
                    let k = if i == 0 { j } else { i };
                    assert(rest[k] == kept[k - 1]);
                    assert(kept.contains(kept[k - 1]));
                    assert(tail.contains(kept[k - 1]));
                    let m = choose|m: int| 0 <= m < tail.len() && tail[m] == kept[k - 1];
                    assert(paths[m + 1] == kept[k - 1]);
                }
            }
        }
    }
}

/// Striking an operation off keeps the ledger exclusive.
pub proof fn lemma_released_stays_exclusive(l: AccessLedgerView, path: Seq<char>, access: Access)
    ensures
        exclusive(l) ==> exclusive(released(l, path, access)),
{
    lemma_without_first(l.readers, path);
    lemma_without_first(l.writers, path);
}

/// Mutual exclusion. From an empty ledger on, whatever was let in and
/// struck off: a changing operation is let in only on a repository on which
/// none is at work, a reading one only on a repository that is not being
/// changed; so no two operations change one repository at a time, and none
/// reads it meanwhile.
pub proof fn law_writers_work_alone(l: AccessLedgerView, path: Seq<char>)
    requires
        exclusive(l),
    ensures
        may_enter(l, path, Access::Write) ==> !l.writers.contains(path) && !l.readers.contains(
            path,
        ),
        may_enter(l, path, Access::Read) ==> !l.writers.contains(path),
        l.writers.contains(path) ==> !may_enter(l, path, Access::Read) && !may_enter(
            l,
            path,
            Access::Write,
        ),
        l.readers.contains(path) ==> !may_enter(l, path, Access::Write),
        forall|i: int, j: int|
            0 <= i < j < l.writers.len() ==> l.writers[i] != l.writers[j],
{
}

} // verus!
