//! The work-item data model: the `Bug` record, its mathematical view, and
//! the step that turns raw field bags from a fetch response into `Bug`s.

use vstd::prelude::*;

verus! {

/// Mathematical view of a work item: every field as plain mathematical data.
pub ghost struct BugModel {
    pub id: u64,
    pub title: Seq<char>,
    pub state: Seq<char>,
    pub created_date: Option<Seq<char>>,
    pub activated_date: Option<Seq<char>>,
    pub description: Option<Seq<char>>,
}

/// A tracked work item ("bug") as fetched from the remote tracker.
#[derive(Debug, Clone)]
pub struct Bug {
    /// Unique positive identifier assigned by the remote system.
    pub id: u64,
    /// Title text; empty when the remote field was absent.
    pub title: String,
    /// Free-text workflow state label; empty when the remote field was absent.
    pub state: String,
    /// Creation timestamp text, when the remote field was set.
    pub created_date: Option<String>,
    /// Activation timestamp text, when the remote field was set.
    pub activated_date: Option<String>,
    /// Description text, when the remote field was set.
    pub description: Option<String>,
}

impl View for Bug {
    type V = BugModel;

    open spec fn view(&self) -> BugModel {
        BugModel {
            id: self.id,
            title: self.title@,
            state: self.state@,
            created_date: self.created_date.deep_view(),
            activated_date: self.activated_date.deep_view(),
            description: self.description.deep_view(),
        }
    }
}

/// Mathematical view of one raw row of a batch-fetch response.
pub ghost struct RowModel {
    pub id: Option<u64>,
    pub title: Option<Seq<char>>,
    pub state: Option<Seq<char>>,
    pub created_date: Option<Seq<char>>,
    pub activated_date: Option<Seq<char>>,
    pub description: Option<Seq<char>>,
}

/// One row of a batch-fetch response: each requested field as the remote
/// service returned it, absent fields as `None`.
#[derive(Debug)]
pub struct WorkItemFields {
    pub id: Option<u64>,
    pub title: Option<String>,
    pub state: Option<String>,
    pub created_date: Option<String>,
    pub activated_date: Option<String>,
    pub description: Option<String>,
}

impl View for WorkItemFields {
    type V = RowModel;

    open spec fn view(&self) -> RowModel {
        RowModel {
            id: self.id,
            title: self.title.deep_view(),
            state: self.state.deep_view(),
            created_date: self.created_date.deep_view(),
            activated_date: self.activated_date.deep_view(),
            description: self.description.deep_view(),
        }
    }
}

/// The sequence held by an optional text field, an absent field reading as
/// empty text.
pub open spec fn or_empty(o: Option<Seq<char>>) -> Seq<char> {
    match o {
        Some(s) => s,
        None => Seq::empty(),
    }
}

/// The work item a response row denotes, for a row whose id is present:
/// absent title or state read as empty text, the other fields carry over.
pub open spec fn bug_of_row(row: RowModel) -> BugModel {
    BugModel {
        id: row.id->0,
        title: or_empty(row.title),
        state: or_empty(row.state),
        created_date: row.created_date,
        activated_date: row.activated_date,
        description: row.description,
    }
}

/// The work items a whole response denotes: rows without an id are dropped,
/// the rest are kept in order of arrival.
pub open spec fn bugs_of_rows(rows: Seq<RowModel>) -> Seq<BugModel>
    decreases rows.len(),
{
    if rows.len() == 0 {
        Seq::empty()
    } else if rows.last().id is Some {
        bugs_of_rows(rows.drop_last()).push(bug_of_row(rows.last()))
    } else {
        bugs_of_rows(rows.drop_last())
    }
}

/// The views of a sequence of work items.
pub open spec fn bug_views(s: Seq<Bug>) -> Seq<BugModel> {
    s.map_values(|b: Bug| b@)
}

/// The views of a sequence of response rows.
pub open spec fn row_views(s: Seq<WorkItemFields>) -> Seq<RowModel> {
    s.map_values(|r: WorkItemFields| r@)
}

fn clone_opt_string(o: &Option<String>) -> (r: Option<String>)
    ensures
        r == *o,
{
    match o {
        Some(s) => Some(s.clone()),
        None => None,
    }
}

/// An exact copy of a work item.
pub fn clone_bug(b: &Bug) -> (r: Bug)
    ensures
        r == *b,
{
    Bug {
        id: b.id,
        title: b.title.clone(),
        state: b.state.clone(),
        created_date: clone_opt_string(&b.created_date),
        activated_date: clone_opt_string(&b.activated_date),
        description: clone_opt_string(&b.description),
    }
}

/// Builds the work items of a batch response from its raw rows: a row whose
/// id is missing is dropped, every other row becomes one `Bug` in order.
pub fn bugs_from_fields(rows: Vec<WorkItemFields>) -> (r: Vec<Bug>)
    ensures
        bug_views(r@) == bugs_of_rows(row_views(rows@)),
{
    let ghost full = row_views(rows@);
    let mut pending = rows;
    let mut out: Vec<Bug> = Vec::new();
    proof {
        assert(bugs_of_rows(full) + bug_views(out@) =~= bugs_of_rows(full));
    }
    while pending.len() > 0
        invariant
            bugs_of_rows(full) == bugs_of_rows(row_views(pending@)) + bug_views(out@),
        decreases pending.len(),
    {
        let ghost before = row_views(pending@);
        let row = pending.pop().unwrap();
        proof {
            assert(row_views(pending@) =~= before.drop_last());
            assert(before.last() == row@);
        }
        match row.id {
            Some(id) => {
                let title = match row.title {
                    Some(t) => t,
                    None => String::new(),
                };
                let state = match row.state {
                    Some(s) => s,
                    None => String::new(),
                };
                let b = Bug {
                    id,
                    title,
                    state,
                    created_date: row.created_date,
                    activated_date: row.activated_date,
                    description: row.description,
                };
                proof {
                    assert(b@ == bug_of_row(row@));
                }
                out.insert(0, b);
                proof {
                    assert(bug_views(out@) =~= seq![bug_of_row(row@)] + bug_views(
                        out@.drop_first(),
                    ));
                    assert(bugs_of_rows(before).push(bug_of_row(row@)) + bug_views(
                        out@.drop_first(),
                    ) =~= bugs_of_rows(before) + bug_views(out@));
                }
            },
            None => {
            },
        }
    }
    proof {
        assert(row_views(pending@).len() == 0);
        assert(bugs_of_rows(row_views(pending@)) + bug_views(out@) =~= bug_views(out@));
    }
    out
}

} // verus!
