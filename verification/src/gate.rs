//! The confirmation gate: what is put before the user when consent or a
//! commit message is asked for, and how the answer is read.
//!
//! Prompting itself is the caller's business. This module decides how many
//! entries of a list are shown, whether the hint about ignore rules goes
//! with them, what an unanswered question defaults to, and which message
//! an empty answer stands for.

use vstd::prelude::*;

verus! {

/// How many findings are listed before the rest is summed up as a count.
pub const FINDINGS_SHOWN: usize = 5;

/// How many changed paths are listed before the rest is summed up as a count.
pub const CHANGES_SHOWN: usize = 10;

/// The answer that the consent question takes when the user just confirms
/// the prompt: decline.
pub const CONSENT_DEFAULT: bool = false;

/// The commit message that stands for an empty answer.
pub open spec fn default_message_text() -> Seq<char> {
    "Update"@
}

/// The message that is committed for the answer `input`: the answer itself,
/// or the default when the answer is empty.
pub open spec fn message_for(input: Seq<char>) -> Seq<char> {
    if input.len() == 0 {
        default_message_text()
    } else {
        input
    }
}

/// The head of a list, and the number of entries left out.
#[derive(Debug, Clone, PartialEq, Eq)]
pub struct Preview {
    /// The entries to list, in their original order.
    pub shown: Vec<String>,
    /// How many entries follow the listed ones.
    pub hidden: usize,
}

/// Mathematical model of a [`Preview`].
pub struct PreviewView {
    pub shown: Seq<Seq<char>>,
    pub hidden: nat,
}

impl View for Preview {
    type V = PreviewView;

    open spec fn view(&self) -> PreviewView {
        PreviewView { shown: self.shown.deep_view(), hidden: self.hidden as nat }
    }
}

/// The first `cap` entries of `items` (all of them if there are fewer), and
/// the count of the others.
pub open spec fn preview_of(items: Seq<Seq<char>>, cap: nat) -> PreviewView {
    if items.len() <= cap {
        PreviewView { shown: items, hidden: 0 }
    } else {
        PreviewView { shown: items.take(cap as int), hidden: (items.len() - cap) as nat }
    }
}

/// What accompanies the consent question.
#[derive(Debug, Clone, PartialEq, Eq)]
pub struct RiskNotice {
    /// The findings to list.
    pub findings: Preview,
    /// Whether to point the user to ignore rules, which the project lacks.
    pub suggest_ignore_rules: bool,
}

/// Mathematical model of a [`RiskNotice`].
pub struct RiskNoticeView {
    pub findings: PreviewView,
    pub suggest_ignore_rules: bool,
}

impl View for RiskNotice {
    type V = RiskNoticeView;

    open spec fn view(&self) -> RiskNoticeView {
        RiskNoticeView {
            findings: self.findings@,
            suggest_ignore_rules: self.suggest_ignore_rules,
        }
    }
}

/// The notice for `findings`: at most [`FINDINGS_SHOWN`] of them, and the
/// hint exactly when the project has no ignore rules.
pub open spec fn risk_notice_of(findings: Seq<Seq<char>>, has_ignore_rules: bool) -> RiskNoticeView {
    RiskNoticeView {
        findings: preview_of(findings, FINDINGS_SHOWN as nat),
        suggest_ignore_rules: !has_ignore_rules,
    }
}

/// The default commit message.
pub fn default_message() -> (message: &'static str)
    ensures
        message@ == default_message_text(),
{
    "Update"
}

/// Turns the answer to the message prompt into the message to commit: a
/// non-empty answer is kept verbatim, an empty one gives the default.
pub fn commit_message(input: String) -> (message: String)
    ensures
        message@ == message_for(input@),
{
    if input.as_str().is_empty() {
        default_message().to_owned()
    } else {
        input
    }
}

/// Cuts `items` down to its first `cap` entries and counts the rest.
pub fn preview(items: &Vec<String>, cap: usize) -> (cut: Preview)
    ensures
        cut@ == preview_of(items.deep_view(), cap as nat),
{
    let total = items.len();
    let keep = if total <= cap { total } else { cap };
    let mut shown: Vec<String> = Vec::new();
    let mut i: usize = 0;
    while i < keep
        invariant
            i <= keep <= total,
            total == items.len(),
            shown.deep_view() == items.deep_view().take(i as int),
        decreases keep - i,
    {
        let ghost before = shown.deep_view();
        shown.push(items[i].clone());
        assert(shown.deep_view() == before.push(items@[i as int]@));
        assert(items.deep_view().take(i + 1) == items.deep_view().take(i as int).push(
            items@[i as int]@,
        ));
        i += 1;
    }
    assert(items.deep_view().take(total as int) == items.deep_view());
    Preview { shown, hidden: total - keep }
}

/// Prepares what is shown with the consent question.
pub fn risk_notice(findings: &Vec<String>, has_ignore_rules: bool) -> (notice: RiskNotice)
    ensures
        notice@ == risk_notice_of(findings.deep_view(), has_ignore_rules),
{
    RiskNotice { findings: preview(findings, FINDINGS_SHOWN), suggest_ignore_rules: !has_ignore_rules }
}

/// Prepares the list of changes that is shown with the message prompt.
pub fn change_summary(changes: &Vec<String>) -> (summary: Preview)
    ensures
        summary@ == preview_of(changes.deep_view(), CHANGES_SHOWN as nat),
{
    preview(changes, CHANGES_SHOWN)
}

/// Whatever the answer, the message that is committed is not empty, and an
/// answer that is not empty is committed as it was given.
pub proof fn message_is_never_empty(input: Seq<char>)
    ensures
        message_for(input).len() > 0,
        input.len() > 0 ==> message_for(input) == input,
        input.len() == 0 ==> message_for(input) == default_message_text(),
{
    reveal_strlit("Update");
}

/// A preview loses nothing: the listed entries followed by as many hidden
/// ones make up the whole list, and the listed entries are its beginning.
pub proof fn preview_accounts_for_all(items: Seq<Seq<char>>, cap: nat)
    ensures
        preview_of(items, cap).shown.len() + preview_of(items, cap).hidden == items.len(),
        preview_of(items, cap).shown.len() <= cap,
        preview_of(items, cap).shown.is_prefix_of(items),
        preview_of(items, cap).hidden > 0 ==> preview_of(items, cap).shown.len() == cap,
{
}

} // verus!
