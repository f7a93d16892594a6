//! The stash: listing the saved snapshots, finding one by its id or by the
//! beginning of its id, deciding whether there is anything to save, and
//! judging the outcome of applying one.

use vstd::prelude::*;
use vstd::string::*;
use crate::error::{GitError, GitErrorView};
use crate::model::{texts_view, StashInfo, StashInfoView};
use crate::objects::{is_object_id, is_object_id_text};
use crate::status::{entries_view, StatusEntry, StatusEntryView, StatusFlags};
use crate::text::{
    between, join2, signed_decimal, signed_decimal_digits, starts_with, text_between,
};

verus! {

/// One snapshot as the repository lists it, the most recent first: its id,
/// its message, which begins with the branch it was made on, and the time of
/// its commit in seconds where the commit could be read.
#[derive(Debug, Clone, PartialEq, Eq)]
pub struct StashRecord {
    pub id: String,
    pub message: String,
    pub seconds: Option<i64>,
}

pub struct StashRecordView {
    pub id: Seq<char>,
    pub message: Seq<char>,
    pub seconds: Option<int>,
}

impl View for StashRecord {
    type V = StashRecordView;

    open spec fn view(&self) -> StashRecordView {
        StashRecordView {
            id: self.id@,
            message: self.message@,
            seconds: match self.seconds {
                Some(s) => Some(s as int),
                None => None,
            },
        }
    }
}

/// Who signs a stash or a commit.
#[derive(Debug, Clone, PartialEq, Eq)]
pub struct Identity {
    pub name: String,
    pub email: String,
}

pub struct IdentityView {
    pub name: Seq<char>,
    pub email: Seq<char>,
}

impl View for Identity {
    type V = IdentityView;

    open spec fn view(&self) -> IdentityView {
        IdentityView { name: self.name@, email: self.email@ }
    }
}

/// The views of a sequence of records.
pub open spec fn records_view(records: Seq<StashRecord>) -> Seq<StashRecordView> {
    records.map_values(|r: StashRecord| r@)
}

/// The views of a sequence of listed snapshots.
pub open spec fn stashes_view(stashes: Seq<StashInfo>) -> Seq<StashInfoView> {
    stashes.map_values(|s: StashInfo| s@)
}

/// The branch on which a snapshot was made, as its message tells: the
/// message begins with `WIP on ` or with `On `, then names the branch, then
/// goes on after a colon and a space.
pub open spec fn stash_origin(message: Seq<char>) -> Option<Seq<char>> {
    match text_between(message, "WIP on "@, ": "@) {
        Some(branch) => Some(branch),
        None => text_between(message, "On "@, ": "@),
    }
}

/// The listing of one record: under the branch it was made on, or under
/// `unknown` where its message names none; with its time in decimal, or `0`
/// where the commit could not be read.
pub open spec fn stash_listing(r: StashRecordView) -> StashInfoView {
    StashInfoView {
        id: r.id,
        message: r.message,
        timestamp: match r.seconds {
            Some(s) => signed_decimal_digits(s),
            None => "0"@,
        },
        branch: match stash_origin(r.message) {
            Some(branch) => branch,
            None => "unknown"@,
        },
    }
}

/// The listings of the records whose id is well formed, in their order.
pub open spec fn stash_listings(records: Seq<StashRecordView>) -> Seq<StashInfoView>
    decreases records.len(),
{
    if records.len() == 0 {
        Seq::empty()
    } else {
        let before = stash_listings(records.drop_last());
        if is_object_id_text(records.last().id) {
            before.push(stash_listing(records.last()))
        } else {
            before
        }
    }
}

/// The record at position `i` answers to `wanted`: it is the first whose id
/// is `wanted`, or no id is `wanted` and it is the only one whose id begins
/// with `wanted`.
pub open spec fn stash_answers(records: Seq<StashRecordView>, wanted: Seq<char>, i: int) -> bool {
    &&& 0 <= i < records.len()
    &&& {
        ||| {
            &&& records[i].id == wanted
            &&& forall|j: int| 0 <= j < i ==> (#[trigger] records[j]).id != wanted
        }
        ||| {
            &&& forall|j: int| 0 <= j < records.len() ==> (#[trigger] records[j]).id != wanted
            &&& wanted.is_prefix_of(records[i].id)
            &&& forall|j: int|
                0 <= j < records.len() && j != i ==> !wanted.is_prefix_of(
                    (#[trigger] records[j]).id,
                )
        }
    }
}

/// How a record is named where the available ones are enumerated.
pub open spec fn stash_caption(r: StashRecordView) -> Seq<char> {
    r.id + ": "@ + r.message
}

/// The failure reported when no record answers to `wanted`.
pub open spec fn stash_not_found(records: Seq<StashRecordView>, wanted: Seq<char>) -> GitErrorView {
    GitErrorView::StashNotFound {
        requested: wanted,
        available: records.map_values(|r: StashRecordView| stash_caption(r)),
    }
}

/// Whether flags speak of a change: any difference between the index and
/// the last commit, any between the working tree and the index, or a
/// conflict. That a path is ignored is no change.
pub open spec fn flags_stashable(f: StatusFlags) -> bool {
    f.index_new || f.index_modified || f.index_deleted || f.index_renamed || f.index_typechange
        || f.wt_new || f.wt_modified || f.wt_deleted || f.wt_typechange || f.wt_renamed
        || f.conflicted
}

/// Some entry speaks of a change that a stash would save.
pub open spec fn anything_to_stash(entries: Seq<StatusEntryView>) -> bool {
    exists|i: int| 0 <= i < entries.len() && flags_stashable((#[trigger] entries[i]).flags)
}

/// The identity used where the repository has none configured.
pub open spec fn fallback_identity() -> IdentityView {
    IdentityView { name: "GitLite User"@, email: "gitlite@example.com"@ }
}

/// The branch on which the snapshot with this message was made.
pub fn origin_of_stash(message: &str) -> (r: Option<String>)
    ensures
        (match r {
            Some(branch) => Some(branch@),
            None => None,
        }) == stash_origin(message@),
{
    match between(message, "WIP on ", ": ") {
        Some(branch) => Some(branch),
        None => between(message, "On ", ": "),
    }
}

/// The listing of the snapshots, in the order of the records, each under the
/// branch it was made on. A record whose id is not well formed is left out.
pub fn stash_list(records: &Vec<StashRecord>) -> (list: Vec<StashInfo>)
    ensures
        stashes_view(list@) == stash_listings(records_view(records@)),
{
    let ghost rv = records_view(records@);
    let mut list: Vec<StashInfo> = Vec::new();
    let mut i: usize = 0;
    proof {
        assert(stashes_view(list@) =~= stash_listings(rv.take(0)));
    }
    while i < records.len()
        invariant
            i <= records.len(),
            rv == records_view(records@),
            stashes_view(list@) == stash_listings(rv.take(i as int)),
        decreases records.len() - i,
    {
        let record = &records[i];
        proof {
            assert(rv.take(i + 1).drop_last() =~= rv.take(i as int));
            assert(rv.take(i + 1).last() == record@);
        }
        if is_object_id(record.id.as_str()) {
            let timestamp = match record.seconds {
                Some(s) => signed_decimal(s),
                None => "0".to_owned(),
            };
            let branch = match origin_of_stash(record.message.as_str()) {
                Some(branch) => branch,
                None => "unknown".to_owned(),
            };
            let info = StashInfo {
                id: record.id.clone(),
                message: record.message.clone(),
                timestamp,
                branch,
            };
            proof {
                assert(info@ == stash_listing(record@));
                assert(stashes_view(list@.push(info)) =~= stashes_view(list@).push(info@));
            }
            list.push(info);
        }
        i += 1;
    }
    proof {
        assert(rv.take(records@.len() as int) =~= rv);
    }
    list
}

fn captions(records: &Vec<StashRecord>) -> (r: Vec<String>)
    ensures
        texts_view(r@) == records_view(records@).map_values(|r: StashRecordView| stash_caption(r)),
{
    let mut r: Vec<String> = Vec::new();
    let mut i: usize = 0;
    while i < records.len()
        invariant
            i <= records.len(),
            r@.len() == i,
            forall|j: int| 0 <= j < i ==> (#[trigger] r@[j])@ == stash_caption(records@[j]@),
        decreases records.len() - i,
    {
        let mut caption = records[i].id.clone();
        caption.append(": ");
        caption.append(records[i].message.as_str());
        r.push(caption);
        i += 1;
    }
    proof {
        assert(texts_view(r@) =~= records_view(records@).map_values(
            |r: StashRecordView| stash_caption(r),
        ));
    }
    r
}

fn not_found(records: &Vec<StashRecord>, wanted: &str) -> (e: GitError)
    ensures
        e@ == stash_not_found(records_view(records@), wanted@),
{
    GitError::StashNotFound { requested: wanted.to_owned(), available: captions(records) }
}

/// The position of the first record whose id is `wanted`.
pub fn find_stash_exact(records: &Vec<StashRecord>, wanted: &str) -> (r: Option<usize>)
    ensures
        match r {
            Some(i) => {
                &&& i < records.len()
                &&& records@[i as int].id@ == wanted@
                &&& forall|j: int| 0 <= j < i ==> (#[trigger] records_view(records@)[j]).id != wanted@
            },
            None => forall|j: int|
                0 <= j < records.len() ==> (#[trigger] records_view(records@)[j]).id != wanted@,
        },
{
    let wanted_owned = wanted.to_owned();
    let mut i: usize = 0;
    while i < records.len()
        invariant
            i <= records.len(),
            wanted_owned@ == wanted@,
            forall|j: int| 0 <= j < i ==> (#[trigger] records_view(records@)[j]).id != wanted@,
        decreases records.len() - i,
    {
        if records[i].id == wanted_owned {
            return Some(i);
        }
        i += 1;
    }
    None
}

/// The position of the record that answers to `wanted`, an id or the
/// beginning of one: the first record with exactly this id, else the only
/// record whose id begins with it. Where none answers, or several begin with
/// it, the failure enumerates the records there are.
pub fn find_stash(records: &Vec<StashRecord>, wanted: &str) -> (r: Result<usize, GitError>)
    ensures
        match r {
            Ok(i) => stash_answers(records_view(records@), wanted@, i as int),
            Err(e) => {
                &&& forall|i: int| !stash_answers(records_view(records@), wanted@, i)
                &&& e@ == stash_not_found(records_view(records@), wanted@)
            },
        },
{
    let ghost rv = records_view(records@);
    match find_stash_exact(records, wanted) {
        Some(i) => {
            proof {
                assert(rv[i as int].id == wanted@);
            }
            return Ok(i);
        },
        None => {},
    }
    let mut found: Option<usize> = None;
    let mut i: usize = 0;
    while i < records.len()
        invariant
            i <= records.len(),
            rv == records_view(records@),
            forall|j: int| 0 <= j < records.len() ==> (#[trigger] rv[j]).id != wanted@,
            match found {
                Some(k) => k < i && wanted@.is_prefix_of(rv[k as int].id) && forall|j: int|
                    0 <= j < i && j != k ==> !wanted@.is_prefix_of((#[trigger] rv[j]).id),
                None => forall|j: int| 0 <= j < i ==> !wanted@.is_prefix_of((#[trigger] rv[j]).id),
            },
        decreases records.len() - i,
    {
        if starts_with(records[i].id.as_str(), wanted) {
            assert(wanted@.is_prefix_of(rv[i as int].id));
            match found {
                Some(k) => {
                    proof {
                        assert forall|p: int| !stash_answers(rv, wanted@, p) by {
                            if stash_answers(rv, wanted@, p) {
                                assert(rv[p].id != wanted@);
                                if p != k {
                                    assert(!wanted@.is_prefix_of(rv[k as int].id));
                                } else {
                                    assert(!wanted@.is_prefix_of(rv[i as int].id));
                                }
                            }
                        }
                    }
                    return Err(not_found(records, wanted));
                },
                None => {
                    found = Some(i);
                },
            }
        }
        i += 1;
    }
    match found {
        Some(k) => Ok(k),
        None => {
            proof {
                assert forall|p: int| !stash_answers(rv, wanted@, p) by {
                    if stash_answers(rv, wanted@, p) {
                        assert(rv[p].id != wanted@);
                        assert(!wanted@.is_prefix_of(rv[p].id));
                    }
                }
            }
            Err(not_found(records, wanted))
        },
    }
}

/// The position of the record to drop: the first whose id is exactly
/// `wanted`.
pub fn find_stash_to_drop(records: &Vec<StashRecord>, wanted: &str) -> (r: Result<usize, GitError>)
    ensures
        match r {
            Ok(i) => {
                &&& i < records.len()
                &&& records@[i as int].id@ == wanted@
                &&& forall|j: int| 0 <= j < i ==> (#[trigger] records_view(records@)[j]).id != wanted@
            },
            Err(e) => {
                &&& forall|j: int|
                    0 <= j < records.len() ==> (#[trigger] records_view(records@)[j]).id != wanted@
                &&& e@ == stash_not_found(records_view(records@), wanted@)
            },
        },
{
    match find_stash_exact(records, wanted) {
        Some(i) => Ok(i),
        None => Err(not_found(records, wanted)),
    }
}

/// Whether there is anything to stash: `Ok` where some entry speaks of a
/// change in the index or in the working tree, `NothingToStash` otherwise.
pub fn check_stashable(entries: &Vec<StatusEntry>) -> (r: Result<(), GitError>)
    ensures
        r is Ok <==> anything_to_stash(entries_view(entries@)),
        r matches Err(e) ==> e@ == GitErrorView::NothingToStash,
{
    let mut i: usize = 0;
    while i < entries.len()
        invariant
            i <= entries.len(),
            forall|j: int|
                0 <= j < i ==> !flags_stashable((#[trigger] entries_view(entries@)[j]).flags),
        decreases entries.len() - i,
    {
        let f = entries[i].flags;
        if f.index_new || f.index_modified || f.index_deleted || f.index_renamed
            || f.index_typechange || f.wt_new || f.wt_modified || f.wt_deleted || f.wt_typechange
            || f.wt_renamed || f.conflicted {
            assert(flags_stashable(entries_view(entries@)[i as int].flags));
            return Ok(());
        }
        i += 1;
    }
    Err(GitError::NothingToStash)
}

/// The identity that signs: the configured one, or the fallback where the
/// repository has none.
pub fn signing_identity(configured: Option<Identity>) -> (r: Identity)
    ensures
        r@ == (match configured {
            Some(identity) => identity@,
            None => fallback_identity(),
        }),
{
    match configured {
        Some(identity) => identity,
        None => Identity {
            name: "GitLite User".to_owned(),
            email: "gitlite@example.com".to_owned(),
        },
    }
}

/// The text shown after a stash was created with id `id`.
pub fn stash_created_message(id: &str) -> (r: String)
    ensures
        r@ == "Successfully created stash: "@ + id@,
{
    join2("Successfully created stash: ", id)
}

/// The text shown after the stash with id `id` was dropped.
pub fn stash_dropped_message(id: &str) -> (r: String)
    ensures
        r@ == "Successfully deleted stash: "@ + id@,
{
    join2("Successfully deleted stash: ", id)
}

/// A created stash can be applied by its id. Where the record of a stash
/// stands first in the list, as that of the stash created last does, its
/// full id answers to it; and at most one record answers to any id or
/// prefix. What applying it restores is the repository's doing.
pub proof fn law_latest_stash_answers_to_its_id(
    records: Seq<StashRecordView>,
    wanted: Seq<char>,
    i: int,
    j: int,
)
    ensures
        records.len() > 0 ==> stash_answers(records, records[0].id, 0),
        stash_answers(records, wanted, i) && stash_answers(records, wanted, j) ==> i == j,
{
    if stash_answers(records, wanted, i) && stash_answers(records, wanted, j) && i != j {
        if records[i].id == wanted {
            assert(records[j].id == wanted);
        } else {
            assert(wanted.is_prefix_of(records[j].id));
        }
    }
}

} // verus!
