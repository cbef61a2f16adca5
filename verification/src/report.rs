//! The report payload the pipeline hands to its rendering collaborator:
//! overall counts, the questionable items with their reasons, and the
//! actionable items grouped by category — complete, so nothing needs
//! re-deriving downstream.

use vstd::prelude::*;

use crate::classify::BugCategory;
use crate::classify::CategorizedBugs;
use crate::classify::QuestionableCategory;
use crate::classify::actionable_of;
use crate::classify::analyze_bugs;
use crate::classify::categorize_bugs;
use crate::classify::group_of;
use crate::classify::questionable_of;
use crate::client::HttpRequest;
use crate::client::basic_auth_of;
use crate::client::batch_body_of;
use crate::client::batch_request;
use crate::client::batch_url_of;
use crate::config::AppConfig;
use crate::model::Bug;
use vstd::string::StringExecFns;

verus! {

/// The complete report payload for one pipeline run.
pub struct BugReport {
    /// One-line summary; names the empty case explicitly.
    pub headline: String,
    /// How many items the run fetched in all.
    pub total: usize,
    /// How many of them are actionable.
    pub actionable_count: usize,
    /// How many of them are questionable.
    pub questionable_count: usize,
    /// The questionable items with their reasons, in order of arrival.
    pub questionable: Vec<(Bug, QuestionableCategory)>,
    /// The actionable items grouped by topical category.
    pub groups: CategorizedBugs,
}

/// The headline of a run that found no items.
pub open spec fn empty_headline() -> Seq<char> {
    "No active bugs assigned to you."@
}

/// Assembles the report for a fetched batch: the partition's two counts,
/// the questionable list, and the actionable items grouped by category.
pub fn build_report(bugs: Vec<Bug>) -> (r: BugReport)
    ensures
        r.total == bugs@.len(),
        r.actionable_count == actionable_of(bugs@).len(),
        r.questionable_count == questionable_of(bugs@).len(),
        r.questionable@ == questionable_of(bugs@),
        r.groups.crash@ == group_of(actionable_of(bugs@), BugCategory::Crash),
        r.groups.performance@ == group_of(actionable_of(bugs@), BugCategory::Performance),
        r.groups.security@ == group_of(actionable_of(bugs@), BugCategory::Security),
        r.groups.file_system@ == group_of(actionable_of(bugs@), BugCategory::FileSystem),
        r.groups.memory@ == group_of(actionable_of(bugs@), BugCategory::Memory),
        r.groups.driver@ == group_of(actionable_of(bugs@), BugCategory::Driver),
        r.groups.boot@ == group_of(actionable_of(bugs@), BugCategory::Boot),
        r.groups.ui@ == group_of(actionable_of(bugs@), BugCategory::UI),
        r.groups.network@ == group_of(actionable_of(bugs@), BugCategory::Network),
        r.groups.other@ == group_of(actionable_of(bugs@), BugCategory::Other),
        r.headline@ == if bugs@.len() == 0 {
            empty_headline()
        } else {
            "Bug report"@
        },
{
    let total = bugs.len();
    let headline = if total == 0 {
        String::from_str("No active bugs assigned to you.")
    } else {
        String::from_str("Bug report")
    };
    let analysis = analyze_bugs(bugs);
    let groups = categorize_bugs(&analysis.actionable);
    BugReport {
        headline,
        total,
        actionable_count: analysis.actionable.len(),
        questionable_count: analysis.questionable.len(),
        questionable: analysis.questionable,
        groups,
    }
}

/// What to do once the id search has answered: with no ids the run is
/// finished with the empty report and no batch fetch is issued; otherwise
/// the batch-fetch request to send next.
pub enum FetchPlan {
    Done(BugReport),
    Fetch(HttpRequest),
}

/// Decides the step after the id search: an empty id list short-circuits
/// to the finished empty report without building any request.
pub fn plan_batch_fetch(config: &AppConfig, ids: &Vec<u64>) -> (r: FetchPlan)
    ensures
        ids@.len() == 0 ==> (r matches FetchPlan::Done(rep) && rep.total == 0
            && rep.actionable_count == 0 && rep.questionable_count == 0 && rep.questionable@.len()
            == 0 && rep.headline@ == empty_headline() && rep.groups.crash@.len() == 0
            && rep.groups.performance@.len() == 0 && rep.groups.security@.len() == 0
            && rep.groups.file_system@.len() == 0 && rep.groups.memory@.len() == 0
            && rep.groups.driver@.len() == 0 && rep.groups.boot@.len() == 0 && rep.groups.ui@.len()
            == 0 && rep.groups.network@.len() == 0 && rep.groups.other@.len() == 0),
        ids@.len() > 0 ==> (r matches FetchPlan::Fetch(req) && req.url@ == batch_url_of(
            config.org@,
            config.project@,
        ) && req.auth_header@ == basic_auth_of(config.azure_devops_pat@) && req.body@
            == batch_body_of(ids@)),
{
    if ids.len() == 0 {
        FetchPlan::Done(build_report(Vec::new()))
    } else {
        FetchPlan::Fetch(batch_request(config, ids))
    }
}

} // verus!
