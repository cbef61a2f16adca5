//! Classification of work items: the description-quality check that decides
//! whether an item is actionable, the keyword rules that place an actionable
//! item in a topical category, and the batch operations over both.

use vstd::prelude::*;

use crate::model::Bug;
use crate::model::BugModel;
use crate::model::clone_bug;
use crate::model::or_empty;
use crate::text::contains_seq;
use crate::text::has_alnum;
use crate::text::has_alphanumeric;
use crate::text::lower_of;
use crate::text::lowercase;
use crate::text::str_contains;
use crate::text::str_eq;
use crate::text::trim_str;
use crate::text::trimmed;
use vstd::string::StrSliceExecFns;
use vstd::string::StringExecFns;

verus! {

/// Why an item's description was judged too poor to act on.
#[derive(Debug, Clone, Copy, PartialEq, Eq, Structural)]
pub enum QuestionableCategory {
    EmptyMinimalDescription,
    DeadLinks,
    SingleWordDescription,
    DuplicateTitleDescription,
    SpecialCharactersSoup,
}

/// Topical category of an actionable item.
#[derive(Debug, Clone, Copy, PartialEq, Eq, Structural)]
pub enum BugCategory {
    Crash,
    Performance,
    Security,
    FileSystem,
    Memory,
    Driver,
    Boot,
    UI,
    Network,
    Other,
}

/// The description text of an item, an absent description reading as empty.
pub open spec fn desc_of(m: BugModel) -> Seq<char> {
    or_empty(m.description)
}

/// The description-quality check, evaluated in a fixed order with the first
/// matching rule deciding: empty after trimming; shorter than eight
/// characters; no alphanumeric character; exactly the title; a link with a
/// not-found marker.
pub open spec fn reason_for(title: Seq<char>, desc: Seq<char>) -> Option<QuestionableCategory> {
    let t = trimmed(desc);
    if t.len() == 0 {
        Some(QuestionableCategory::EmptyMinimalDescription)
    } else if t.len() < 8 {
        Some(QuestionableCategory::SingleWordDescription)
    } else if !has_alnum(t) {
        Some(QuestionableCategory::SpecialCharactersSoup)
    } else if t == title {
        Some(QuestionableCategory::DuplicateTitleDescription)
    } else if contains_seq(t, "http"@) && contains_seq(t, "404"@) {
        Some(QuestionableCategory::DeadLinks)
    } else {
        None
    }
}

/// The description-quality check applied to a work item.
pub open spec fn reason_of(m: BugModel) -> Option<QuestionableCategory> {
    reason_for(m.title, desc_of(m))
}

/// Decides whether an item is questionable, and for which reason; `None`
/// means the item is actionable.
pub fn is_questionable(bug: &Bug) -> (r: Option<QuestionableCategory>)
    ensures
        r == reason_of(bug@),
{
    let desc_full: &str = match &bug.description {
        Some(d) => d.as_str(),
        None => "",
    };
    proof {
        reveal_strlit("");
        assert(desc_full@ =~= desc_of(bug@));
    }
    let t: &str = trim_str(desc_full);
    let tlen: usize = t.unicode_len();
    if tlen == 0 {
        return Some(QuestionableCategory::EmptyMinimalDescription);
    }
    if tlen < 8 {
        return Some(QuestionableCategory::SingleWordDescription);
    }
    if !has_alphanumeric(t) {
        return Some(QuestionableCategory::SpecialCharactersSoup);
    }
    if str_eq(t, bug.title.as_str()) {
        return Some(QuestionableCategory::DuplicateTitleDescription);
    }
    if str_contains(t, "http") && str_contains(t, "404") {
        return Some(QuestionableCategory::DeadLinks);
    }
    None
}

/// The text the keyword rules look at: the lowercased title and lowercased
/// description joined by one space.
pub open spec fn joined_text(m: BugModel) -> Seq<char> {
    lower_of(m.title) + " "@ + lower_of(desc_of(m))
}

/// The ordered keyword rules, the first group with a matching keyword
/// deciding; `Other` when no keyword matches.
pub open spec fn category_for(text: Seq<char>) -> BugCategory {
    if contains_seq(text, "crash"@) || contains_seq(text, "bsod"@) || contains_seq(
        text,
        "exception"@,
    ) || contains_seq(text, "fault"@) || contains_seq(text, "bugcheck"@) {
        BugCategory::Crash
    } else if contains_seq(text, "slow"@) || contains_seq(text, "hang"@) || contains_seq(
        text,
        "freeze"@,
    ) || contains_seq(text, "performance"@) || contains_seq(text, "timeout"@) || contains_seq(
        text,
        "unresponsive"@,
    ) {
        BugCategory::Performance
    } else if contains_seq(text, "security"@) || contains_seq(text, "permission"@) || contains_seq(
        text,
        "access"@,
    ) || contains_seq(text, "privilege"@) || contains_seq(text, "auth"@) || contains_seq(
        text,
        "token"@,
    ) {
        BugCategory::Security
    } else if contains_seq(text, "file"@) || contains_seq(text, "disk"@) || contains_seq(
        text,
        "storage"@,
    ) || contains_seq(text, "ntfs"@) || contains_seq(text, "fat32"@) || contains_seq(
        text,
        "corruption"@,
    ) {
        BugCategory::FileSystem
    } else if contains_seq(text, "memory"@) || contains_seq(text, "leak"@) || contains_seq(
        text,
        "heap"@,
    ) || contains_seq(text, "allocation"@) || contains_seq(text, "out of memory"@) || contains_seq(
        text,
        "oom"@,
    ) {
        BugCategory::Memory
    } else if contains_seq(text, "driver"@) || contains_seq(text, "device"@) || contains_seq(
        text,
        "hardware"@,
    ) || contains_seq(text, "pnp"@) || contains_seq(text, "plug and play"@) {
        BugCategory::Driver
    } else if contains_seq(text, "boot"@) || contains_seq(text, "startup"@) || contains_seq(
        text,
        "start"@,
    ) || contains_seq(text, "initialization"@) || contains_seq(text, "init"@) || contains_seq(
        text,
        "loading"@,
    ) {
        BugCategory::Boot
    } else if contains_seq(text, "ui"@) || contains_seq(text, "button"@) || contains_seq(
        text,
        "window"@,
    ) || contains_seq(text, "dialog"@) || contains_seq(text, "menu"@) || contains_seq(
        text,
        "screen"@,
    ) {
        BugCategory::UI
    } else if contains_seq(text, "network"@) || contains_seq(text, "connect"@) || contains_seq(
        text,
        "disconnect"@,
    ) || contains_seq(text, "timeout"@) || contains_seq(text, "tcp"@) || contains_seq(
        text,
        "udp"@,
    ) {
        BugCategory::Network
    } else {
        BugCategory::Other
    }
}

/// The topical category of a work item.
pub open spec fn category_of(m: BugModel) -> BugCategory {
    category_for(joined_text(m))
}

/// Assigns an item its topical category by the ordered keyword rules.
pub fn categorize_bug(bug: &Bug) -> (c: BugCategory)
    ensures
        c == category_of(bug@),
{
    let desc_full: &str = match &bug.description {
        Some(d) => d.as_str(),
        None => "",
    };
    proof {
        reveal_strlit("");
        assert(desc_full@ =~= desc_of(bug@));
    }
    let mut text: String = lowercase(bug.title.as_str());
    text.append(" ");
    let desc_lower: String = lowercase(desc_full);
    text.append(desc_lower.as_str());
    let t: &str = text.as_str();
    if str_contains(t, "crash") || str_contains(t, "bsod") || str_contains(t, "exception")
        || str_contains(t, "fault") || str_contains(t, "bugcheck") {
        BugCategory::Crash
    } else if str_contains(t, "slow") || str_contains(t, "hang") || str_contains(t, "freeze")
        || str_contains(t, "performance") || str_contains(t, "timeout") || str_contains(
        t,
        "unresponsive",
    ) {
        BugCategory::Performance
    } else if str_contains(t, "security") || str_contains(t, "permission") || str_contains(
        t,
        "access",
    ) || str_contains(t, "privilege") || str_contains(t, "auth") || str_contains(t, "token") {
        BugCategory::Security
    } else if str_contains(t, "file") || str_contains(t, "disk") || str_contains(t, "storage")
        || str_contains(t, "ntfs") || str_contains(t, "fat32") || str_contains(t, "corruption") {
        BugCategory::FileSystem
    } else if str_contains(t, "memory") || str_contains(t, "leak") || str_contains(t, "heap")
        || str_contains(t, "allocation") || str_contains(t, "out of memory") || str_contains(
        t,
        "oom",
    ) {
        BugCategory::Memory
    } else if str_contains(t, "driver") || str_contains(t, "device") || str_contains(t, "hardware")
        || str_contains(t, "pnp") || str_contains(t, "plug and play") {
        BugCategory::Driver
    } else if str_contains(t, "boot") || str_contains(t, "startup") || str_contains(t, "start")
        || str_contains(t, "initialization") || str_contains(t, "init") || str_contains(
        t,
        "loading",
    ) {
        BugCategory::Boot
    } else if str_contains(t, "ui") || str_contains(t, "button") || str_contains(t, "window")
        || str_contains(t, "dialog") || str_contains(t, "menu") || str_contains(t, "screen") {
        BugCategory::UI
    } else if str_contains(t, "network") || str_contains(t, "connect") || str_contains(
        t,
        "disconnect",
    ) || str_contains(t, "timeout") || str_contains(t, "tcp") || str_contains(t, "udp") {
        BugCategory::Network
    } else {
        BugCategory::Other
    }
}

/// The result of partitioning a batch of items by description quality.
#[derive(Debug)]
pub struct AnalysisResult {
    /// Items whose description is judged sufficient to act on, in order of
    /// arrival.
    pub actionable: Vec<Bug>,
    /// Items flagged for backlog cleanup, each with its reason, in order of
    /// arrival.
    pub questionable: Vec<(Bug, QuestionableCategory)>,
}

/// The actionable items of a batch, in order of arrival.
pub open spec fn actionable_of(s: Seq<Bug>) -> Seq<Bug>
    decreases s.len(),
{
    if s.len() == 0 {
        Seq::empty()
    } else if reason_of(s.last()@) is None {
        actionable_of(s.drop_last()).push(s.last())
    } else {
        actionable_of(s.drop_last())
    }
}

/// The questionable items of a batch with their reasons, in order of arrival.
pub open spec fn questionable_of(s: Seq<Bug>) -> Seq<(Bug, QuestionableCategory)>
    decreases s.len(),
{
    if s.len() == 0 {
        Seq::empty()
    } else if reason_of(s.last()@) is Some {
        questionable_of(s.drop_last()).push((s.last(), reason_of(s.last()@)->0))
    } else {
        questionable_of(s.drop_last())
    }
}

/// Partitions a batch of items into actionable and questionable ones,
/// keeping each side's order of arrival; together the two sides hold every
/// input item.
pub fn analyze_bugs(bugs: Vec<Bug>) -> (r: AnalysisResult)
    ensures
        r.actionable@ == actionable_of(bugs@),
        r.questionable@ == questionable_of(bugs@),
        r.actionable@.len() + r.questionable@.len() == bugs@.len(),
{
    let ghost full = bugs@;
    let mut pending = bugs;
    let mut actionable: Vec<Bug> = Vec::new();
    let mut questionable: Vec<(Bug, QuestionableCategory)> = Vec::new();
    proof {
        assert(actionable_of(full) + actionable@ =~= actionable_of(full));
        assert(questionable_of(full) + questionable@ =~= questionable_of(full));
    }
    while pending.len() > 0
        invariant
            actionable_of(full) == actionable_of(pending@) + actionable@,
            questionable_of(full) == questionable_of(pending@) + questionable@,
            actionable@.len() + questionable@.len() + pending@.len() == full.len(),
        decreases pending.len(),
    {
        let ghost before = pending@;
        let bug = pending.pop().unwrap();
        proof {
            assert(pending@ =~= before.drop_last());
            assert(before.last() == bug);
        }
        match is_questionable(&bug) {
            Some(reason) => {
                let ghost qold = questionable@;
                questionable.insert(0, (bug, reason));
                proof {
                    assert(questionable_of(before) == questionable_of(pending@).push(
                        (bug, reason),
                    ));
                    assert(questionable_of(pending@) + questionable@ =~= questionable_of(before)
                        + qold);
                }
            },
            None => {
                let ghost aold = actionable@;
                actionable.insert(0, bug);
                proof {
                    assert(actionable_of(before) == actionable_of(pending@).push(bug));
                    assert(actionable_of(pending@) + actionable@ =~= actionable_of(before) + aold);
                }
            },
        }
    }
    proof {
        assert(actionable_of(pending@) + actionable@ =~= actionable@);
        assert(questionable_of(pending@) + questionable@ =~= questionable@);
    }
    AnalysisResult { actionable, questionable }
}

/// Actionable items grouped by topical category, each group keeping its
/// members' order of arrival.
#[derive(Debug)]
pub struct CategorizedBugs {
    pub crash: Vec<Bug>,
    pub performance: Vec<Bug>,
    pub security: Vec<Bug>,
    pub file_system: Vec<Bug>,
    pub memory: Vec<Bug>,
    pub driver: Vec<Bug>,
    pub boot: Vec<Bug>,
    pub ui: Vec<Bug>,
    pub network: Vec<Bug>,
    pub other: Vec<Bug>,
}

/// The members of one category group, in order of arrival.
pub open spec fn group_of(s: Seq<Bug>, c: BugCategory) -> Seq<Bug>
    decreases s.len(),
{
    if s.len() == 0 {
        Seq::empty()
    } else if category_of(s.last()@) == c {
        group_of(s.drop_last(), c).push(s.last())
    } else {
        group_of(s.drop_last(), c)
    }
}

fn filter_category(bugs: &Vec<Bug>, c: BugCategory) -> (r: Vec<Bug>)
    ensures
        r@ == group_of(bugs@, c),
{
    let mut out: Vec<Bug> = Vec::new();
    let mut i: usize = 0;
    proof {
        assert(bugs@.subrange(0, 0) =~= Seq::<Bug>::empty());
    }
    while i < bugs.len()
        invariant
            0 <= i <= bugs@.len(),
            out@ == group_of(bugs@.subrange(0, i as int), c),
        decreases bugs@.len() - i,
    {
        let ghost prefix = bugs@.subrange(0, i as int);
        let bug = &bugs[i];
        if categorize_bug(bug) == c {
            out.push(clone_bug(bug));
        }
        proof {
            let next = bugs@.subrange(0, i + 1);
            assert(next.drop_last() =~= prefix);
            assert(next.last() == bugs@[i as int]);
        }
        i = i + 1;
    }
    proof {
        assert(bugs@.subrange(0, bugs@.len() as int) =~= bugs@);
    }
    out
}

/// Groups items by topical category, each group keeping its members' order
/// of arrival.
pub fn categorize_bugs(bugs: &Vec<Bug>) -> (r: CategorizedBugs)
    ensures
        r.crash@ == group_of(bugs@, BugCategory::Crash),
        r.performance@ == group_of(bugs@, BugCategory::Performance),
        r.security@ == group_of(bugs@, BugCategory::Security),
        r.file_system@ == group_of(bugs@, BugCategory::FileSystem),
        r.memory@ == group_of(bugs@, BugCategory::Memory),
        r.driver@ == group_of(bugs@, BugCategory::Driver),
        r.boot@ == group_of(bugs@, BugCategory::Boot),
        r.ui@ == group_of(bugs@, BugCategory::UI),
        r.network@ == group_of(bugs@, BugCategory::Network),
        r.other@ == group_of(bugs@, BugCategory::Other),
{
    CategorizedBugs {
        crash: filter_category(bugs, BugCategory::Crash),
        performance: filter_category(bugs, BugCategory::Performance),
        security: filter_category(bugs, BugCategory::Security),
        file_system: filter_category(bugs, BugCategory::FileSystem),
        memory: filter_category(bugs, BugCategory::Memory),
        driver: filter_category(bugs, BugCategory::Driver),
        boot: filter_category(bugs, BugCategory::Boot),
        ui: filter_category(bugs, BugCategory::UI),
        network: filter_category(bugs, BugCategory::Network),
        other: filter_category(bugs, BugCategory::Other),
    }
}

} // verus!
