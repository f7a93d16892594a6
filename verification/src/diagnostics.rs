//! The report on the setup of a repository: its remote, the identity and the
//! credential helper that are configured, the current branch and its
//! upstream.

use vstd::prelude::*;
use vstd::string::*;
use crate::error::{GitError, GitErrorView};
use crate::model::text_option_view;
use crate::notes::{add_note, error, info, notes_view, success, warn, LogLevel, LogNote, LogNoteView};
use crate::text::join2;

verus! {

/// What was found of the remote `origin`.
#[derive(Debug, Clone, PartialEq, Eq)]
pub enum RemoteFact {
    /// The remote exists, with this URL as far as it has one.
    Found { url: Option<String> },
    /// The remote could not be found.
    Missing { reason: String },
}

pub enum RemoteFactView {
    Found { url: Option<Seq<char>> },
    Missing { reason: Seq<char> },
}

impl View for RemoteFact {
    type V = RemoteFactView;

    open spec fn view(&self) -> RemoteFactView {
        match *self {
            RemoteFact::Found { url } => RemoteFactView::Found { url: text_option_view(url) },
            RemoteFact::Missing { reason } => RemoteFactView::Missing { reason: reason@ },
        }
    }
}

/// What the configuration holds.
#[derive(Debug, Clone, PartialEq, Eq)]
pub struct ConfigFacts {
    pub user_name: Option<String>,
    pub user_email: Option<String>,
    pub credential_helper: Option<String>,
}

pub struct ConfigFactsView {
    pub user_name: Option<Seq<char>>,
    pub user_email: Option<Seq<char>>,
    pub credential_helper: Option<Seq<char>>,
}

impl View for ConfigFacts {
    type V = ConfigFactsView;

    open spec fn view(&self) -> ConfigFactsView {
        ConfigFactsView {
            user_name: text_option_view(self.user_name),
            user_email: text_option_view(self.user_email),
            credential_helper: text_option_view(self.credential_helper),
        }
    }
}

/// What was found of the upstream of the current branch.
#[derive(Debug, Clone, PartialEq, Eq)]
pub enum UpstreamFact {
    /// The current branch is no local branch, so nothing was looked up.
    NotLookedUp,
    /// The branch has no upstream.
    Unset,
    /// The branch has an upstream, with this name as far as it can be read.
    Tracking { name: Option<String> },
}

pub enum UpstreamFactView {
    NotLookedUp,
    Unset,
    Tracking { name: Option<Seq<char>> },
}

impl View for UpstreamFact {
    type V = UpstreamFactView;

    open spec fn view(&self) -> UpstreamFactView {
        match *self {
            UpstreamFact::NotLookedUp => UpstreamFactView::NotLookedUp,
            UpstreamFact::Unset => UpstreamFactView::Unset,
            UpstreamFact::Tracking { name } => UpstreamFactView::Tracking { name: text_option_view(name) },
        }
    }
}

/// What was found of HEAD.
#[derive(Debug, Clone, PartialEq, Eq)]
pub enum HeadFact {
    /// HEAD was read: the short name of what it points at, as far as it has
    /// one, and the upstream.
    Read { shorthand: Option<String>, upstream: UpstreamFact },
    /// HEAD could not be read.
    Unreadable { reason: String },
}

pub enum HeadFactView {
    Read { shorthand: Option<Seq<char>>, upstream: UpstreamFactView },
    Unreadable { reason: Seq<char> },
}

impl View for HeadFact {
    type V = HeadFactView;

    open spec fn view(&self) -> HeadFactView {
        match *self {
            HeadFact::Read { shorthand, upstream } => HeadFactView::Read {
                shorthand: text_option_view(shorthand),
                upstream: upstream@,
            },
            HeadFact::Unreadable { reason } => HeadFactView::Unreadable { reason: reason@ },
        }
    }
}

/// The view of the configuration, or of its absence.
pub open spec fn config_view(config: Option<ConfigFacts>) -> Option<ConfigFactsView> {
    match config {
        Some(c) => Some(c@),
        None => None,
    }
}

/// `text`, or `fallback` where there is none.
pub open spec fn shown_or(text: Option<Seq<char>>, fallback: Seq<char>) -> Seq<char> {
    match text {
        Some(t) => t,
        None => fallback,
    }
}

/// The notes with which the report begins, up to the opening of the
/// repository.
pub open spec fn report_intro() -> Seq<LogNoteView> {
    seq![info("开始Git诊断..."@), info("检查仓库状态..."@)]
}

/// The notes for a repository that could not be opened.
pub open spec fn report_unopened(reason: Seq<char>) -> Seq<LogNoteView> {
    report_intro().push(error("仓库打开失败: "@ + reason))
}

/// The notes on the remote.
pub open spec fn report_remote(remote: RemoteFactView) -> Seq<LogNoteView> {
    seq![
        info("检查远程仓库配置..."@),
        match remote {
            RemoteFactView::Found { url } => success("远程仓库URL: "@ + shown_or(url, "未设置"@)),
            RemoteFactView::Missing { reason } => error("未找到远程仓库 origin: "@ + reason),
        },
    ]
}

/// The note on one setting of the configuration.
pub open spec fn report_setting(
    value: Option<Seq<char>>,
    label: Seq<char>,
    missing: Seq<char>,
) -> LogNoteView {
    match value {
        Some(v) => success(label + v),
        None => warn(missing),
    }
}

/// The notes on the configuration.
pub open spec fn report_config(config: Option<ConfigFactsView>) -> Seq<LogNoteView> {
    match config {
        Some(c) => seq![
            info("检查Git配置..."@),
            report_setting(c.user_name, "用户名: "@, "未设置用户名"@),
            report_setting(c.user_email, "邮箱: "@, "未设置邮箱"@),
            report_setting(c.credential_helper, "凭据助手: "@, "未配置凭据助手"@),
        ],
        None => seq![info("检查Git配置..."@), error("无法读取Git配置"@)],
    }
}

/// The notes on the current branch and its upstream.
pub open spec fn report_head(head: HeadFactView) -> Seq<LogNoteView> {
    match head {
        HeadFactView::Read { shorthand, upstream } => {
            let branch = seq![
                info("检查当前分支..."@),
                success("当前分支: "@ + shown_or(shorthand, "未知"@)),
            ];
            match upstream {
                UpstreamFactView::NotLookedUp => branch,
                UpstreamFactView::Unset => branch.push(warn("未设置上游分支"@)),
                UpstreamFactView::Tracking { name } => branch.push(
                    success("上游分支: "@ + shown_or(name, "未知"@)),
                ),
            }
        },
        HeadFactView::Unreadable { reason } => seq![
            info("检查当前分支..."@),
            error("获取HEAD失败: "@ + reason),
        ],
    }
}

/// The report on a repository that could be opened.
pub open spec fn report(
    remote: RemoteFactView,
    config: Option<ConfigFactsView>,
    head: HeadFactView,
) -> Seq<LogNoteView> {
    report_intro().push(success("仓库打开成功"@)) + report_remote(remote) + report_config(config)
        + report_head(head).push(success("Git诊断完成"@))
}

fn or_shown(text: &Option<String>, fallback: &str) -> (r: String)
    ensures
        r@ == shown_or(text_option_view(*text), fallback@),
{
    match text {
        Some(t) => t.clone(),
        None => fallback.to_owned(),
    }
}

fn note_setting(notes: &mut Vec<LogNote>, value: &Option<String>, label: &str, missing: &str)
    ensures
        notes_view(final(notes)@) == notes_view(old(notes)@).push(
            report_setting(text_option_view(*value), label@, missing@),
        ),
{
    match value {
        Some(v) => add_note(notes, LogLevel::Success, join2(label, v.as_str())),
        None => add_note(notes, LogLevel::Warn, missing.to_owned()),
    }
}

/// The notes of a report on a repository that could not be opened, and the
/// failure to return with them.
pub fn diagnose_unopened(reason: &str) -> (r: (Vec<LogNote>, GitError))
    ensures
        notes_view(r.0@) == report_unopened(reason@),
        r.1@ == (GitErrorView::RepositoryUnavailable {
            detail: "Failed to open repository: "@ + reason@,
        }),
{
    let mut notes: Vec<LogNote> = Vec::new();
    add_note(&mut notes, LogLevel::Info, "开始Git诊断...".to_owned());
    add_note(&mut notes, LogLevel::Info, "检查仓库状态...".to_owned());
    add_note(&mut notes, LogLevel::Error, join2("仓库打开失败: ", reason));
    proof {
        assert(notes_view(notes@) =~= report_unopened(reason@));
    }
    (
        notes,
        GitError::RepositoryUnavailable { detail: join2("Failed to open repository: ", reason) },
    )
}

/// The report on a repository that could be opened: a note on each thing
/// that was looked at, in the order remote, configuration, current branch.
pub fn diagnose(remote: &RemoteFact, config: &Option<ConfigFacts>, head: &HeadFact) -> (notes: Vec<
    LogNote,
>)
    ensures
        notes_view(notes@) == report(remote@, config_view(*config), head@),
{
    let ghost config_view = config_view(*config);
    let mut notes: Vec<LogNote> = Vec::new();
    add_note(&mut notes, LogLevel::Info, "开始Git诊断...".to_owned());
    add_note(&mut notes, LogLevel::Info, "检查仓库状态...".to_owned());
    add_note(&mut notes, LogLevel::Success, "仓库打开成功".to_owned());
    proof {
        assert(notes_view(notes@) =~= report_intro().push(success("仓库打开成功"@)));
    }
    let ghost opened = notes_view(notes@);
    add_note(&mut notes, LogLevel::Info, "检查远程仓库配置...".to_owned());
    match remote {
        RemoteFact::Found { url } => {
            let shown = or_shown(url, "未设置");
            add_note(&mut notes, LogLevel::Success, join2("远程仓库URL: ", shown.as_str()));
        },
        RemoteFact::Missing { reason } => {
            add_note(&mut notes, LogLevel::Error, join2("未找到远程仓库 origin: ", reason.as_str()));
        },
    }
    proof {
        assert(notes_view(notes@) =~= opened + report_remote(remote@));
    }
    let ghost with_remote = notes_view(notes@);
    add_note(&mut notes, LogLevel::Info, "检查Git配置...".to_owned());
    match config {
        Some(c) => {
            note_setting(&mut notes, &c.user_name, "用户名: ", "未设置用户名");
            note_setting(&mut notes, &c.user_email, "邮箱: ", "未设置邮箱");
            note_setting(&mut notes, &c.credential_helper, "凭据助手: ", "未配置凭据助手");
        },
        None => {
            add_note(&mut notes, LogLevel::Error, "无法读取Git配置".to_owned());
        },
    }
    proof {
        assert(notes_view(notes@) =~= with_remote + report_config(config_view));
    }
    let ghost with_config = notes_view(notes@);
    add_note(&mut notes, LogLevel::Info, "检查当前分支...".to_owned());
    match head {
        HeadFact::Read { shorthand, upstream } => {
            let shown = or_shown(shorthand, "未知");
            add_note(&mut notes, LogLevel::Success, join2("当前分支: ", shown.as_str()));
            match upstream {
                UpstreamFact::NotLookedUp => {},
                UpstreamFact::Unset => {
                    add_note(&mut notes, LogLevel::Warn, "未设置上游分支".to_owned());
                },
                UpstreamFact::Tracking { name } => {
                    let shown = or_shown(name, "未知");
                    add_note(&mut notes, LogLevel::Success, join2("上游分支: ", shown.as_str()));
                },
            }
        },
        HeadFact::Unreadable { reason } => {
            add_note(&mut notes, LogLevel::Error, join2("获取HEAD失败: ", reason.as_str()));
        },
    }
    proof {
        assert(notes_view(notes@) =~= with_config + report_head(head@));
    }
    add_note(&mut notes, LogLevel::Success, "Git诊断完成".to_owned());
    proof {
        assert(notes_view(notes@) =~= report(remote@, config_view, head@));
    }
    notes
}

} // verus!
