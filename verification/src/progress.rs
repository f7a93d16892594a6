//! The notes that tell of the progress of a pull, a push or a fetch: for
//! each step, what to say of the answer that came back and of what is done
//! next.

use vstd::prelude::*;
use vstd::string::*;
use crate::fetch::{FetchStage, FetchState, FetchStateView};
use crate::notes::{error, info, notes_view, success, warn, LogLevel, LogNote, LogNoteView};
use crate::pull::{
    merge_conflict_text, tracking_ref, PullStage, PullState, PullStateView,
};
use crate::push::{push_advice, push_advice_text, PushStage, PushState, PushStateView};
use crate::reply::{as_failure, unexpected_reply_text, Reply, ReplyView};
use crate::text::{decimal, decimal_digits, join2, join3};

verus! {

/// For whom the notes of a push are written.
#[derive(Clone, Copy, Debug, PartialEq, Eq, Structural)]
pub enum NoteStyle {
    /// For a list handed over when the operation has ended.
    Collected,
    /// For a display that follows the operation as it goes.
    Live,
}

/// The level of a note that confirms a step.
pub open spec fn confirm_level(style: NoteStyle) -> LogLevel {
    match style {
        NoteStyle::Collected => LogLevel::Info,
        NoteStyle::Live => LogLevel::Success,
    }
}

/// A note that confirms a step.
pub open spec fn confirm(style: NoteStyle, message: Seq<char>) -> LogNoteView {
    LogNoteView { level: confirm_level(style), message }
}

/// The notes with which a pull of the repository at `path` begins.
pub open spec fn pull_opening_notes(path: Seq<char>) -> Seq<LogNoteView> {
    seq![info("pull: attempt start | path="@ + path), info("正在打开仓库..."@)]
}

/// What is said before the reason when the action of `stage` fails; nothing
/// is said for some stages.
pub open spec fn pull_failure_note(stage: PullStage) -> Option<Seq<char>> {
    match stage {
        PullStage::Opening => Some("打开仓库失败: "@),
        PullStage::ReadingHead => Some("获取HEAD失败: "@),
        PullStage::FindingRemote => Some("未找到远程仓库 origin: "@),
        PullStage::Fetching => Some("获取远程信息失败: "@),
        PullStage::ResolvingRemote => Some("获取远程分支引用失败: "@),
        PullStage::ResolvingLocal => Some("获取本地HEAD引用失败: "@),
        PullStage::ReadingIndex => Some("获取索引失败: "@),
        PullStage::LoadingRemoteCommit => Some("查找远程提交失败: "@),
        PullStage::LoadingLocalCommit => Some("查找本地提交失败: "@),
        PullStage::FindingHeadRef => Some("查找HEAD引用失败: "@),
        PullStage::MovingHead => Some("快进合并失败: "@),
        PullStage::Merging => Some("合并提交失败: "@),
        _ => None,
    }
}

/// The note that tells that a merge commit is needed.
pub open spec fn pull_merge_needed_notes() -> Seq<LogNoteView> {
    seq![info("检测到需要合并提交，开始合并操作..."@)]
}

/// The notes that tell of the step of a pull in state `s` that was answered
/// with `r`.
pub open spec fn pull_notes_on(s: PullStateView, r: ReplyView) -> Seq<LogNoteView> {
    match (s.stage, r) {
        (PullStage::Finished, _) => Seq::empty(),
        (PullStage::FindingMergeBase, ReplyView::Failed(_)) => pull_merge_needed_notes(),
        (_, ReplyView::Failed(reason)) => match pull_failure_note(s.stage) {
            Some(prefix) => seq![error(prefix + reason)],
            None => Seq::empty(),
        },
        (PullStage::Opening, ReplyView::Done) => seq![
            info("仓库打开成功"@),
            info("正在获取HEAD引用..."@),
        ],
        (PullStage::ReadingHead, ReplyView::Text(name)) => seq![
            info("获取HEAD引用成功"@),
            info("当前分支: "@ + name),
            info("正在查找远程仓库 origin..."@),
        ],
        (PullStage::ReadingHead, ReplyView::Nothing) => seq![
            info("获取HEAD引用成功"@),
            info("当前分支: "@ + "main"@),
            info("正在查找远程仓库 origin..."@),
        ],
        (PullStage::FindingRemote, ReplyView::Text(_)) | (
            PullStage::FindingRemote,
            ReplyView::Nothing,
        ) => seq![
            info("找到远程仓库 origin"@),
            info("正在设置认证..."@),
            info("开始获取远程分支 "@ + s.branch + "..."@),
        ],
        (PullStage::Fetching, ReplyView::Done) => seq![
            info("获取远程信息成功"@),
            info("正在获取远程分支引用: "@ + tracking_ref(s.branch)),
        ],
        (PullStage::ResolvingRemote, ReplyView::Text(_)) => seq![info("获取远程分支引用成功"@)],
        (PullStage::ResolvingLocal, ReplyView::Text(id)) => if id == s.remote_tip {
            seq![
                info("获取本地HEAD引用成功"@),
                info("本地分支已是最新状态"@),
                success("操作完成 - 无需拉取"@),
            ]
        } else {
            seq![info("获取本地HEAD引用成功"@), info("检测到远程更新，准备合并..."@)]
        },
        (PullStage::ReadingIndex, ReplyView::Done) => Seq::empty(),
        (PullStage::DiffingWorktree, ReplyView::Done) => Seq::empty(),
        (PullStage::CountingChanges, ReplyView::Count(n)) => if n > 0 {
            seq![
                warn("检测到 "@ + decimal_digits(n) + " 个未提交的更改"@),
                error("无法拉取：存在未提交的更改，请先提交或贮藏"@),
            ]
        } else {
            seq![info("工作区状态检查通过，开始合并..."@)]
        },
        (PullStage::LoadingRemoteCommit, ReplyView::Done) => seq![info("找到远程提交"@)],
        (PullStage::LoadingLocalCommit, ReplyView::Done) => seq![
            info("找到本地提交"@),
            info("正在检查合并类型..."@),
        ],
        (PullStage::FindingMergeBase, ReplyView::Text(base)) => if base == s.local_head {
            seq![info("检测到快进合并，执行快进操作..."@)]
        } else {
            pull_merge_needed_notes()
        },
        (PullStage::FindingMergeBase, ReplyView::Nothing) => pull_merge_needed_notes(),
        (PullStage::FindingHeadRef, ReplyView::Done) => seq![info("找到HEAD引用"@)],
        (PullStage::MovingHead, ReplyView::Done) => seq![
            info("快进合并成功"@),
            success("操作完成 - 快进合并成功"@),
        ],
        (PullStage::Merging, ReplyView::Flag(conflicts)) => if conflicts {
            seq![error(merge_conflict_text(s.branch))]
        } else {
            seq![info("合并提交创建成功"@)]
        },
        (PullStage::WritingTree, ReplyView::Text(_)) => Seq::empty(),
        (PullStage::LoadingTree, ReplyView::Done) => seq![info("正在创建合并提交..."@)],
        (PullStage::Signing, ReplyView::Done) => Seq::empty(),
        (PullStage::Committing, ReplyView::Text(id)) => seq![
            info("合并提交创建成功"@),
            success("操作完成 - 合并提交成功 (commit: "@ + id + ")"@),
        ],
        _ => seq![error(unexpected_reply_text())],
    }
}

/// The notes that tell of the step of a pull in state `s` that was answered
/// with `r`. Of a refusal they tell as of a failure with the same reason.
pub open spec fn pull_step_notes(s: PullStateView, r: ReplyView) -> Seq<LogNoteView> {
    pull_notes_on(s, as_failure(r))
}

/// The notes with which a push of the repository at `path` begins.
pub open spec fn push_opening_notes(style: NoteStyle, path: Seq<char>) -> Seq<LogNoteView> {
    match style {
        NoteStyle::Collected => seq![
            info("push: attempt start | path="@ + path),
            info("正在打开仓库..."@),
        ],
        NoteStyle::Live => seq![info("开始推送操作..."@), info("正在打开仓库: "@ + path)],
    }
}

/// The note with which a push ends well.
pub open spec fn push_done_note(branch: Seq<char>) -> LogNoteView {
    success("操作完成 - 已推送到 origin/"@ + branch)
}

/// The notes on a push that the remote turned down.
pub open spec fn push_refused_notes(
    style: NoteStyle,
    reason: Seq<char>,
    url: Seq<char>,
) -> Seq<LogNoteView> {
    match style {
        NoteStyle::Collected => seq![error("推送失败: "@ + reason), error("远程仓库URL: "@ + url)],
        NoteStyle::Live => seq![
            error("推送失败: "@ + reason),
            error("详细错误信息: "@ + reason),
            error("远程仓库URL: "@ + url),
            info(push_advice_text(reason)),
        ],
    }
}

/// The notes that tell of the step of a push in state `s` that was answered
/// with `r`.
pub open spec fn push_notes_on(
    style: NoteStyle,
    s: PushStateView,
    r: ReplyView,
) -> Seq<LogNoteView> {
    match (s.stage, r) {
        (PushStage::Finished, _) => Seq::empty(),
        (PushStage::FindingBranch, ReplyView::Done) => Seq::empty(),
        (PushStage::FindingBranch, _) => seq![push_done_note(s.branch)],
        (PushStage::CheckingUpstream, ReplyView::Flag(true)) => seq![
            info("上游分支已存在"@),
            push_done_note(s.branch),
        ],
        (PushStage::CheckingUpstream, _) => Seq::empty(),
        (PushStage::SettingUpstream, ReplyView::Done) => seq![
            confirm(style, "已设置上游分支: origin/"@ + s.branch),
            push_done_note(s.branch),
        ],
        (PushStage::SettingUpstream, ReplyView::Failed(reason)) => seq![
            warn("设置上游分支失败: "@ + reason),
            push_done_note(s.branch),
        ],
        (PushStage::SettingUpstream, _) => seq![
            warn("设置上游分支失败: "@ + unexpected_reply_text()),
            push_done_note(s.branch),
        ],
        (PushStage::Opening, ReplyView::Failed(reason)) => seq![error("打开仓库失败: "@ + reason)],
        (PushStage::ReadingHead, ReplyView::Failed(reason)) => seq![
            error("获取HEAD失败: "@ + reason),
        ],
        (PushStage::FindingRemote, ReplyView::Failed(reason)) => seq![
            error("未找到远程仓库 origin: "@ + reason),
        ],
        (PushStage::Pushing, ReplyView::Failed(reason)) => push_refused_notes(style, reason, s.url),
        (PushStage::Opening, ReplyView::Done) => seq![
            confirm(style, "仓库打开成功"@),
            info("正在获取HEAD引用..."@),
        ],
        (PushStage::ReadingHead, ReplyView::Text(name)) => seq![
            confirm(style, "获取HEAD引用成功"@),
            info("当前分支: "@ + name),
            info("正在查找远程仓库 origin..."@),
        ],
        (PushStage::ReadingHead, ReplyView::Nothing) => seq![
            confirm(style, "获取HEAD引用成功"@),
            info("当前分支: "@ + "main"@),
            info("正在查找远程仓库 origin..."@),
        ],
        (PushStage::FindingRemote, ReplyView::Text(_)) | (
            PushStage::FindingRemote,
            ReplyView::Nothing,
        ) => seq![
            confirm(style, "找到远程仓库 origin"@),
            info("正在设置认证..."@),
            info("开始推送分支 "@ + s.branch + " 到 origin..."@),
        ],
        (PushStage::Pushing, ReplyView::Done) => seq![
            confirm(style, "推送成功！"@),
            info("正在检查上游分支设置..."@),
        ],
        _ => seq![error(unexpected_reply_text())],
    }
}

/// The notes that tell of the step of a push in state `s` that was answered
/// with `r`. Of a refusal they tell as of a failure with the same reason.
pub open spec fn push_step_notes(style: NoteStyle, s: PushStateView, r: ReplyView) -> Seq<LogNoteView> {
    push_notes_on(style, s, as_failure(r))
}

/// The notes with which a fetch of the repository at `path` begins.
pub open spec fn fetch_opening_notes(path: Seq<char>) -> Seq<LogNoteView> {
    seq![info("fetch: attempt start | path="@ + path), info("正在打开仓库..."@)]
}

/// The notes that tell of the step of a fetch in state `s` that was answered
/// with `r`.
pub open spec fn fetch_notes_on(s: FetchStateView, r: ReplyView) -> Seq<LogNoteView> {
    match (s.stage, r) {
        (FetchStage::Finished, _) => Seq::empty(),
        (FetchStage::Opening, ReplyView::Failed(reason)) => seq![error("打开仓库失败: "@ + reason)],
        (FetchStage::FindingRemote, ReplyView::Failed(reason)) => seq![
            error("未找到远程仓库 origin: "@ + reason),
        ],
        (FetchStage::Fetching, ReplyView::Failed(reason)) => seq![
            error("获取失败: "@ + reason),
            error("远程仓库URL: "@ + s.url),
        ],
        (FetchStage::Opening, ReplyView::Done) => seq![
            info("仓库打开成功"@),
            info("正在查找远程仓库 origin..."@),
        ],
        (FetchStage::FindingRemote, ReplyView::Text(_)) | (
            FetchStage::FindingRemote,
            ReplyView::Nothing,
        ) => seq![
            info("找到远程仓库 origin"@),
            info("正在设置认证..."@),
            info("开始获取远程更改..."@),
        ],
        (FetchStage::Fetching, ReplyView::Done) => seq![
            info("获取成功！"@),
            success("操作完成 - 已获取远程仓库最新信息"@),
        ],
        _ => seq![error(unexpected_reply_text())],
    }
}

/// The notes that tell of the step of a fetch in state `s` that was answered
/// with `r`. Of a refusal they tell as of a failure with the same reason.
pub open spec fn fetch_step_notes(s: FetchStateView, r: ReplyView) -> Seq<LogNoteView> {
    fetch_notes_on(s, as_failure(r))
}

fn note(level: LogLevel, message: String) -> (n: LogNote)
    ensures
        n@ == (LogNoteView { level, message: message@ }),
{
    LogNote { level, message }
}

fn told(level: LogLevel, message: &str) -> (n: LogNote)
    ensures
        n@ == (LogNoteView { level, message: message@ }),
{
    LogNote { level, message: message.to_owned() }
}

fn none() -> (v: Vec<LogNote>)
    ensures
        notes_view(v@) == Seq::<LogNoteView>::empty(),
{
    let v: Vec<LogNote> = Vec::new();
    proof {
        assert(notes_view(v@) =~= Seq::<LogNoteView>::empty());
    }
    v
}

fn one(a: LogNote) -> (v: Vec<LogNote>)
    ensures
        notes_view(v@) == seq![a@],
{
    let mut v: Vec<LogNote> = Vec::new();
    v.push(a);
    proof {
        assert(notes_view(v@) =~= seq![a@]);
    }
    v
}

fn two(a: LogNote, b: LogNote) -> (v: Vec<LogNote>)
    ensures
        notes_view(v@) == seq![a@, b@],
{
    let mut v: Vec<LogNote> = Vec::new();
    v.push(a);
    v.push(b);
    proof {
        assert(notes_view(v@) =~= seq![a@, b@]);
    }
    v
}

fn three(a: LogNote, b: LogNote, c: LogNote) -> (v: Vec<LogNote>)
    ensures
        notes_view(v@) == seq![a@, b@, c@],
{
    let mut v: Vec<LogNote> = Vec::new();
    v.push(a);
    v.push(b);
    v.push(c);
    proof {
        assert(notes_view(v@) =~= seq![a@, b@, c@]);
    }
    v
}

fn four(a: LogNote, b: LogNote, c: LogNote, d: LogNote) -> (v: Vec<LogNote>)
    ensures
        notes_view(v@) == seq![a@, b@, c@, d@],
{
    let mut v: Vec<LogNote> = Vec::new();
    v.push(a);
    v.push(b);
    v.push(c);
    v.push(d);
    proof {
        assert(notes_view(v@) =~= seq![a@, b@, c@, d@]);
    }
    v
}

fn unexpected() -> (v: Vec<LogNote>)
    ensures
        notes_view(v@) == seq![error(unexpected_reply_text())],
{
    one(told(LogLevel::Error, "Unexpected reply from the repository"))
}

fn confirming(style: NoteStyle, message: String) -> (n: LogNote)
    ensures
        n@ == confirm(style, message@),
{
    match style {
        NoteStyle::Collected => note(LogLevel::Info, message),
        NoteStyle::Live => note(LogLevel::Success, message),
    }
}

/// The notes with which a pull of the repository at `path` begins.
pub fn pull_opening(path: &str) -> (v: Vec<LogNote>)
    ensures
        notes_view(v@) == pull_opening_notes(path@),
{
    two(
        note(LogLevel::Info, join2("pull: attempt start | path=", path)),
        told(LogLevel::Info, "正在打开仓库..."),
    )
}

fn pull_failure_prefix_note(stage: PullStage) -> (r: Option<&'static str>)
    ensures
        (match r {
            Some(p) => Some(p@),
            None => None,
        }) == pull_failure_note(stage),
{
    match stage {
        PullStage::Opening => Some("打开仓库失败: "),
        PullStage::ReadingHead => Some("获取HEAD失败: "),
        PullStage::FindingRemote => Some("未找到远程仓库 origin: "),
        PullStage::Fetching => Some("获取远程信息失败: "),
        PullStage::ResolvingRemote => Some("获取远程分支引用失败: "),
        PullStage::ResolvingLocal => Some("获取本地HEAD引用失败: "),
        PullStage::ReadingIndex => Some("获取索引失败: "),
        PullStage::LoadingRemoteCommit => Some("查找远程提交失败: "),
        PullStage::LoadingLocalCommit => Some("查找本地提交失败: "),
        PullStage::FindingHeadRef => Some("查找HEAD引用失败: "),
        PullStage::MovingHead => Some("快进合并失败: "),
        PullStage::Merging => Some("合并提交失败: "),
        _ => None,
    }
}

fn merge_needed() -> (v: Vec<LogNote>)
    ensures
        notes_view(v@) == pull_merge_needed_notes(),
{
    one(told(LogLevel::Info, "检测到需要合并提交，开始合并操作..."))
}

/// The notes that tell of the step of a pull in `state` that was answered
/// with `reply`.
pub fn pull_notes(state: &PullState, reply: &Reply) -> (v: Vec<LogNote>)
    ensures
        notes_view(v@) == pull_step_notes(state@, reply@),
{
    match reply {
        Reply::Refused(reason) => {
            let failure = Reply::Failed(reason.clone());
            pull_notes_told(state, &failure)
        },
        _ => pull_notes_told(state, reply),
    }
}

fn pull_notes_told(state: &PullState, reply: &Reply) -> (v: Vec<LogNote>)
    ensures
        notes_view(v@) == pull_notes_on(state@, reply@),
{
    if state.stage == PullStage::Finished {
        return none();
    }
    match reply {
        Reply::Failed(reason) => {
            if state.stage == PullStage::FindingMergeBase {
                return merge_needed();
            }
            return match pull_failure_prefix_note(state.stage) {
                Some(prefix) => one(note(LogLevel::Error, join2(prefix, reason.as_str()))),
                None => none(),
            };
        },
        _ => {},
    }
    match state.stage {
        PullStage::Opening => match reply {
            Reply::Done => two(
                told(LogLevel::Info, "仓库打开成功"),
                told(LogLevel::Info, "正在获取HEAD引用..."),
            ),
            _ => unexpected(),
        },
        PullStage::ReadingHead => match reply {
            Reply::Text(name) => three(
                told(LogLevel::Info, "获取HEAD引用成功"),
                note(LogLevel::Info, join2("当前分支: ", name.as_str())),
                told(LogLevel::Info, "正在查找远程仓库 origin..."),
            ),
            Reply::Nothing => three(
                told(LogLevel::Info, "获取HEAD引用成功"),
                note(LogLevel::Info, join2("当前分支: ", "main")),
                told(LogLevel::Info, "正在查找远程仓库 origin..."),
            ),
            _ => unexpected(),
        },
        PullStage::FindingRemote => match reply {
            Reply::Text(_) | Reply::Nothing => three(
                told(LogLevel::Info, "找到远程仓库 origin"),
                told(LogLevel::Info, "正在设置认证..."),
                note(LogLevel::Info, join3("开始获取远程分支 ", state.branch.as_str(), "...")),
            ),
            _ => unexpected(),
        },
        PullStage::Fetching => match reply {
            Reply::Done => {
                let reference = join2("refs/remotes/origin/", state.branch.as_str());
                two(
                    told(LogLevel::Info, "获取远程信息成功"),
                    note(LogLevel::Info, join2("正在获取远程分支引用: ", reference.as_str())),
                )
            },
            _ => unexpected(),
        },
        PullStage::ResolvingRemote => match reply {
            Reply::Text(_) => one(told(LogLevel::Info, "获取远程分支引用成功")),
            _ => unexpected(),
        },
        PullStage::ResolvingLocal => match reply {
            Reply::Text(id) => {
                if *id == state.remote_tip {
                    three(
                        told(LogLevel::Info, "获取本地HEAD引用成功"),
                        told(LogLevel::Info, "本地分支已是最新状态"),
                        told(LogLevel::Success, "操作完成 - 无需拉取"),
                    )
                } else {
                    two(
                        told(LogLevel::Info, "获取本地HEAD引用成功"),
                        told(LogLevel::Info, "检测到远程更新，准备合并..."),
                    )
                }
            },
            _ => unexpected(),
        },
        PullStage::ReadingIndex => match reply {
            Reply::Done => none(),
            _ => unexpected(),
        },
        PullStage::DiffingWorktree => match reply {
            Reply::Done => none(),
            _ => unexpected(),
        },
        PullStage::CountingChanges => match reply {
            Reply::Count(n) => {
                if *n > 0 {
                    let count = decimal(*n as u64);
                    two(
                        note(LogLevel::Warn, join3("检测到 ", count.as_str(), " 个未提交的更改")),
                        told(LogLevel::Error, "无法拉取：存在未提交的更改，请先提交或贮藏"),
                    )
                } else {
                    one(told(LogLevel::Info, "工作区状态检查通过，开始合并..."))
                }
            },
            _ => unexpected(),
        },
        PullStage::LoadingRemoteCommit => match reply {
            Reply::Done => one(told(LogLevel::Info, "找到远程提交")),
            _ => unexpected(),
        },
        PullStage::LoadingLocalCommit => match reply {
            Reply::Done => two(
                told(LogLevel::Info, "找到本地提交"),
                told(LogLevel::Info, "正在检查合并类型..."),
            ),
            _ => unexpected(),
        },
        PullStage::FindingMergeBase => match reply {
            Reply::Text(base) => {
                if *base == state.local_head {
                    one(told(LogLevel::Info, "检测到快进合并，执行快进操作..."))
                } else {
                    merge_needed()
                }
            },
            Reply::Nothing => merge_needed(),
            _ => unexpected(),
        },
        PullStage::FindingHeadRef => match reply {
            Reply::Done => one(told(LogLevel::Info, "找到HEAD引用")),
            _ => unexpected(),
        },
        PullStage::MovingHead => match reply {
            Reply::Done => two(
                told(LogLevel::Info, "快进合并成功"),
                told(LogLevel::Success, "操作完成 - 快进合并成功"),
            ),
            _ => unexpected(),
        },
        PullStage::Merging => match reply {
            Reply::Flag(conflicts) => {
                if *conflicts {
                    one(
                        note(
                            LogLevel::Error,
                            join3(
                                "Failed to merge: conflicts with 'origin/",
                                state.branch.as_str(),
                                "'",
                            ),
                        ),
                    )
                } else {
                    one(told(LogLevel::Info, "合并提交创建成功"))
                }
            },
            _ => unexpected(),
        },
        PullStage::WritingTree => match reply {
            Reply::Text(_) => none(),
            _ => unexpected(),
        },
        PullStage::LoadingTree => match reply {
            Reply::Done => one(told(LogLevel::Info, "正在创建合并提交...")),
            _ => unexpected(),
        },
        PullStage::Signing => match reply {
            Reply::Done => none(),
            _ => unexpected(),
        },
        PullStage::Committing => match reply {
            Reply::Text(id) => two(
                told(LogLevel::Info, "合并提交创建成功"),
                note(
                    LogLevel::Success,
                    join3("操作完成 - 合并提交成功 (commit: ", id.as_str(), ")"),
                ),
            ),
            _ => unexpected(),
        },
        PullStage::Finished => none(),
    }
}

/// The notes with which a push of the repository at `path` begins.
pub fn push_opening(style: NoteStyle, path: &str) -> (v: Vec<LogNote>)
    ensures
        notes_view(v@) == push_opening_notes(style, path@),
{
    match style {
        NoteStyle::Collected => two(
            note(LogLevel::Info, join2("push: attempt start | path=", path)),
            told(LogLevel::Info, "正在打开仓库..."),
        ),
        NoteStyle::Live => two(
            told(LogLevel::Info, "开始推送操作..."),
            note(LogLevel::Info, join2("正在打开仓库: ", path)),
        ),
    }
}

fn push_done(branch: &String) -> (n: LogNote)
    ensures
        n@ == push_done_note(branch@),
{
    note(LogLevel::Success, join2("操作完成 - 已推送到 origin/", branch.as_str()))
}

fn push_refused(style: NoteStyle, reason: &String, url: &String) -> (v: Vec<LogNote>)
    ensures
        notes_view(v@) == push_refused_notes(style, reason@, url@),
{
    match style {
        NoteStyle::Collected => two(
            note(LogLevel::Error, join2("推送失败: ", reason.as_str())),
            note(LogLevel::Error, join2("远程仓库URL: ", url.as_str())),
        ),
        NoteStyle::Live => four(
            note(LogLevel::Error, join2("推送失败: ", reason.as_str())),
            note(LogLevel::Error, join2("详细错误信息: ", reason.as_str())),
            note(LogLevel::Error, join2("远程仓库URL: ", url.as_str())),
            note(LogLevel::Info, push_advice(reason.as_str())),
        ),
    }
}

/// The notes that tell of the step of a push in `state` that was answered
/// with `reply`.
pub fn push_notes(style: NoteStyle, state: &PushState, reply: &Reply) -> (v: Vec<LogNote>)
    ensures
        notes_view(v@) == push_step_notes(style, state@, reply@),
{
    match reply {
        Reply::Refused(reason) => {
            let failure = Reply::Failed(reason.clone());
            push_notes_told(style, state, &failure)
        },
        _ => push_notes_told(style, state, reply),
    }
}

fn push_notes_told(style: NoteStyle, state: &PushState, reply: &Reply) -> (v: Vec<LogNote>)
    ensures
        notes_view(v@) == push_notes_on(style, state@, reply@),
{
    match state.stage {
        PushStage::Finished => none(),
        PushStage::FindingBranch => match reply {
            Reply::Done => none(),
            _ => one(push_done(&state.branch)),
        },
        PushStage::CheckingUpstream => match reply {
            Reply::Flag(true) => two(
                told(LogLevel::Info, "上游分支已存在"),
                push_done(&state.branch),
            ),
            _ => none(),
        },
        PushStage::SettingUpstream => match reply {
            Reply::Done => two(
                confirming(style, join2("已设置上游分支: origin/", state.branch.as_str())),
                push_done(&state.branch),
            ),
            Reply::Failed(reason) => two(
                note(LogLevel::Warn, join2("设置上游分支失败: ", reason.as_str())),
                push_done(&state.branch),
            ),
            _ => two(
                note(
                    LogLevel::Warn,
                    join2("设置上游分支失败: ", "Unexpected reply from the repository"),
                ),
                push_done(&state.branch),
            ),
        },
        PushStage::Opening => match reply {
            Reply::Failed(reason) => one(
                note(LogLevel::Error, join2("打开仓库失败: ", reason.as_str())),
            ),
            Reply::Done => two(
                confirming(style, "仓库打开成功".to_owned()),
                told(LogLevel::Info, "正在获取HEAD引用..."),
            ),
            _ => unexpected(),
        },
        PushStage::ReadingHead => match reply {
            Reply::Failed(reason) => one(
                note(LogLevel::Error, join2("获取HEAD失败: ", reason.as_str())),
            ),
            Reply::Text(name) => three(
                confirming(style, "获取HEAD引用成功".to_owned()),
                note(LogLevel::Info, join2("当前分支: ", name.as_str())),
                told(LogLevel::Info, "正在查找远程仓库 origin..."),
            ),
            Reply::Nothing => three(
                confirming(style, "获取HEAD引用成功".to_owned()),
                note(LogLevel::Info, join2("当前分支: ", "main")),
                told(LogLevel::Info, "正在查找远程仓库 origin..."),
            ),
            _ => unexpected(),
        },
        PushStage::FindingRemote => match reply {
            Reply::Failed(reason) => one(
                note(LogLevel::Error, join2("未找到远程仓库 origin: ", reason.as_str())),
            ),
            Reply::Text(_) | Reply::Nothing => three(
                confirming(style, "找到远程仓库 origin".to_owned()),
                told(LogLevel::Info, "正在设置认证..."),
                note(
                    LogLevel::Info,
                    join3("开始推送分支 ", state.branch.as_str(), " 到 origin..."),
                ),
            ),
            _ => unexpected(),
        },
        PushStage::Pushing => match reply {
            Reply::Failed(reason) => push_refused(style, reason, &state.url),
            Reply::Done => two(
                confirming(style, "推送成功！".to_owned()),
                told(LogLevel::Info, "正在检查上游分支设置..."),
            ),
            _ => unexpected(),
        },
    }
}

/// The notes with which a fetch of the repository at `path` begins.
pub fn fetch_opening(path: &str) -> (v: Vec<LogNote>)
    ensures
        notes_view(v@) == fetch_opening_notes(path@),
{
    two(
        note(LogLevel::Info, join2("fetch: attempt start | path=", path)),
        told(LogLevel::Info, "正在打开仓库..."),
    )
}

/// The notes that tell of the step of a fetch in `state` that was answered
/// with `reply`.
pub fn fetch_notes(state: &FetchState, reply: &Reply) -> (v: Vec<LogNote>)
    ensures
        notes_view(v@) == fetch_step_notes(state@, reply@),
{
    match reply {
        Reply::Refused(reason) => {
            let failure = Reply::Failed(reason.clone());
            fetch_notes_told(state, &failure)
        },
        _ => fetch_notes_told(state, reply),
    }
}

fn fetch_notes_told(state: &FetchState, reply: &Reply) -> (v: Vec<LogNote>)
    ensures
        notes_view(v@) == fetch_notes_on(state@, reply@),
{
    match state.stage {
        FetchStage::Finished => none(),
        FetchStage::Opening => match reply {
            Reply::Failed(reason) => one(
                note(LogLevel::Error, join2("打开仓库失败: ", reason.as_str())),
            ),
            Reply::Done => two(
                told(LogLevel::Info, "仓库打开成功"),
                told(LogLevel::Info, "正在查找远程仓库 origin..."),
            ),
            _ => unexpected(),
        },
        FetchStage::FindingRemote => match reply {
            Reply::Failed(reason) => one(
                note(LogLevel::Error, join2("未找到远程仓库 origin: ", reason.as_str())),
            ),
            Reply::Text(_) | Reply::Nothing => three(
                told(LogLevel::Info, "找到远程仓库 origin"),
                told(LogLevel::Info, "正在设置认证..."),
                told(LogLevel::Info, "开始获取远程更改..."),
            ),
            _ => unexpected(),
        },
        FetchStage::Fetching => match reply {
            Reply::Failed(reason) => two(
                note(LogLevel::Error, join2("获取失败: ", reason.as_str())),
                note(LogLevel::Error, join2("远程仓库URL: ", state.url.as_str())),
            ),
            Reply::Done => two(
                told(LogLevel::Info, "获取成功！"),
                told(LogLevel::Success, "操作完成 - 已获取远程仓库最新信息"),
            ),
            _ => unexpected(),
        },
    }
}

} // verus!
