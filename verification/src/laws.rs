//! Statements the classifier is held to: which rule flags which
//! descriptions, that classification is deterministic, that the partition
//! into actionable and questionable is complete, and that category grouping
//! covers the grouped set exactly once.

use vstd::prelude::*;

use crate::classify::AnalysisResult;
use crate::classify::BugCategory;
use crate::classify::QuestionableCategory;
use crate::classify::actionable_of;
use crate::classify::category_for;
use crate::classify::category_of;
use crate::classify::group_of;
use crate::classify::questionable_of;
use crate::classify::reason_for;
use crate::classify::reason_of;
use crate::model::Bug;
use crate::text::contains_seq;
use crate::text::has_alnum;
use crate::text::trimmed;

verus! {

/// A description that is empty after trimming is always flagged as
/// `EmptyMinimalDescription`, whatever the title.
pub proof fn lemma_empty_description_flagged(title: Seq<char>, desc: Seq<char>)
    requires
        trimmed(desc).len() == 0,
    ensures
        reason_for(title, desc) == Some(QuestionableCategory::EmptyMinimalDescription),
{
}

/// A description whose trimmed text is shorter than eight characters, but
/// not empty, is flagged as `SingleWordDescription`.
pub proof fn lemma_short_description_flagged(title: Seq<char>, desc: Seq<char>)
    requires
        0 < trimmed(desc).len() < 8,
    ensures
        reason_for(title, desc) == Some(QuestionableCategory::SingleWordDescription),
{
}

/// A description with no alphanumeric character is flagged as
/// `SpecialCharactersSoup`, once it is long enough to escape the two
/// earlier rules.
pub proof fn lemma_symbol_soup_flagged(title: Seq<char>, desc: Seq<char>)
    requires
        trimmed(desc).len() >= 8,
        !has_alnum(trimmed(desc)),
    ensures
        reason_for(title, desc) == Some(QuestionableCategory::SpecialCharactersSoup),
{
}

/// A description that trims to exactly the title is flagged as
/// `DuplicateTitleDescription`, for every description the three earlier
/// rules let through.
pub proof fn lemma_duplicate_title_flagged(title: Seq<char>, desc: Seq<char>)
    requires
        trimmed(desc).len() >= 8,
        has_alnum(trimmed(desc)),
        trimmed(desc) == title,
    ensures
        reason_for(title, desc) == Some(QuestionableCategory::DuplicateTitleDescription),
{
}

/// A description holding both "http" and "404" is flagged as `DeadLinks`,
/// for every description the four earlier rules let through.
pub proof fn lemma_dead_links_flagged(title: Seq<char>, desc: Seq<char>)
    requires
        trimmed(desc).len() >= 8,
        has_alnum(trimmed(desc)),
        trimmed(desc) != title,
        contains_seq(trimmed(desc), "http"@),
        contains_seq(trimmed(desc), "404"@),
    ensures
        reason_for(title, desc) == Some(QuestionableCategory::DeadLinks),
{
}

/// Classification is deterministic: two partitions of the same input, each
/// as `analyze_bugs` promises, are the same partition.
pub proof fn lemma_classify_idempotent(bugs: Seq<Bug>, r1: AnalysisResult, r2: AnalysisResult)
    requires
        r1.actionable@ == actionable_of(bugs),
        r1.questionable@ == questionable_of(bugs),
        r2.actionable@ == actionable_of(bugs),
        r2.questionable@ == questionable_of(bugs),
    ensures
        r1.actionable@ == r2.actionable@,
        r1.questionable@ == r2.questionable@,
{
}

/// The partition is complete: the two sides' lengths add up to the input's,
/// every input item lands on one side, every actionable item is one the
/// quality check passed, every questionable item carries the reason the
/// check gave it, and no item is on both sides.
pub proof fn lemma_partition_complete(bugs: Seq<Bug>)
    ensures
        actionable_of(bugs).len() + questionable_of(bugs).len() == bugs.len(),
        forall|b: Bug| #[trigger] actionable_of(bugs).contains(b) ==> reason_of(b@) is None,
        forall|p: (Bug, QuestionableCategory)| #[trigger]
            questionable_of(bugs).contains(p) ==> reason_of(p.0@) == Some(p.1),
        forall|b: Bug| #[trigger]
            bugs.contains(b) ==> actionable_of(bugs).contains(b) || questionable_of(bugs).contains(
                (b, reason_of(b@)->0),
            ),
        forall|b: Bug, c: QuestionableCategory|
            !(actionable_of(bugs).contains(b) && #[trigger] questionable_of(bugs).contains((b, c))),
    decreases bugs.len(),
{
    if bugs.len() > 0 {
        let rest = bugs.drop_last();
        lemma_partition_complete(rest);
        assert forall|b: Bug| #[trigger] actionable_of(bugs).contains(b) implies reason_of(b@)
            is None by {
            if b != bugs.last() || reason_of(bugs.last()@) is Some {
                let i = choose|i: int|
                    0 <= i < actionable_of(bugs).len() && actionable_of(bugs)[i] == b;
                if reason_of(bugs.last()@) is None && i == actionable_of(bugs).len() - 1 {
                } else {
                    assert(actionable_of(rest).contains(b));
                }
            }
        }
        assert forall|p: (Bug, QuestionableCategory)| #[trigger]
            questionable_of(bugs).contains(p) implies reason_of(p.0@) == Some(p.1) by {
            let i = choose|i: int|
                0 <= i < questionable_of(bugs).len() && questionable_of(bugs)[i] == p;
            if reason_of(bugs.last()@) is Some && i == questionable_of(bugs).len() - 1 {
            } else {
                assert(questionable_of(rest).contains(p));
            }
        }
        assert forall|b: Bug| #[trigger] bugs.contains(b) implies actionable_of(bugs).contains(b)
            || questionable_of(bugs).contains((b, reason_of(b@)->0)) by {
            let i = choose|i: int| 0 <= i < bugs.len() && bugs[i] == b;
            if i < bugs.len() - 1 {
                assert(rest[i] == b);
                assert(rest.contains(b));
                if actionable_of(rest).contains(b) {
                    let j = choose|j: int|
                        0 <= j < actionable_of(rest).len() && actionable_of(rest)[j] == b;
                    assert(actionable_of(bugs)[j] == b);
                    assert(actionable_of(bugs).contains(b));
                } else {
                    let p = (b, reason_of(b@)->0);
                    let j = choose|j: int|
                        0 <= j < questionable_of(rest).len() && questionable_of(rest)[j] == p;
                    assert(questionable_of(bugs)[j] == p);
                    assert(questionable_of(bugs).contains(p));
                }
            } else {
                if reason_of(b@) is None {
                    assert(actionable_of(bugs).last() == b);
                    assert(actionable_of(bugs).contains(b));
                } else {
                    assert(questionable_of(bugs).last() == (b, reason_of(b@)->0));
                    assert(questionable_of(bugs).contains((b, reason_of(b@)->0)));
                }
            }
        }
    }
}

/// Keyword precedence: text holding "crash" is categorized `Crash`, whatever
/// else it holds, the crash group being the first rule tried.
pub proof fn lemma_crash_keyword_precedence(text: Seq<char>)
    requires
        contains_seq(text, "crash"@),
    ensures
        category_for(text) == BugCategory::Crash,
{
}

/// The sum of the ten groups' sizes over one input.
pub open spec fn group_size_sum(bugs: Seq<Bug>) -> nat {
    group_of(bugs, BugCategory::Crash).len() + group_of(bugs, BugCategory::Performance).len()
        + group_of(bugs, BugCategory::Security).len() + group_of(
        bugs,
        BugCategory::FileSystem,
    ).len() + group_of(bugs, BugCategory::Memory).len() + group_of(
        bugs,
        BugCategory::Driver,
    ).len() + group_of(bugs, BugCategory::Boot).len() + group_of(bugs, BugCategory::UI).len()
        + group_of(bugs, BugCategory::Network).len() + group_of(bugs, BugCategory::Other).len()
}

/// The input positions holding items of one category, in increasing order.
pub open spec fn positions_of(bugs: Seq<Bug>, c: BugCategory) -> Seq<int>
    decreases bugs.len(),
{
    if bugs.len() == 0 {
        Seq::empty()
    } else if category_of(bugs.last()@) == c {
        positions_of(bugs.drop_last(), c).push(bugs.len() - 1)
    } else {
        positions_of(bugs.drop_last(), c)
    }
}

/// Each category group keeps its members' relative order of arrival: the
/// group is exactly the input read at the strictly increasing positions
/// that hold its category, and every such position is read.
pub proof fn lemma_group_order(bugs: Seq<Bug>, c: BugCategory)
    ensures
        group_of(bugs, c).len() == positions_of(bugs, c).len(),
        forall|k: int|
            0 <= k < positions_of(bugs, c).len() ==> 0 <= #[trigger] positions_of(bugs, c)[k]
                < bugs.len(),
        forall|k: int|
            0 <= k < positions_of(bugs, c).len() ==> #[trigger] group_of(bugs, c)[k]
                == bugs[positions_of(bugs, c)[k]],
        forall|k1: int, k2: int|
            0 <= k1 < k2 < positions_of(bugs, c).len() ==> #[trigger] positions_of(bugs, c)[k1]
                < #[trigger] positions_of(bugs, c)[k2],
        forall|i: int|
            0 <= i < bugs.len() && category_of(#[trigger] bugs[i]@) == c ==> positions_of(
                bugs,
                c,
            ).contains(i),
    decreases bugs.len(),
{
    if bugs.len() > 0 {
        let rest = bugs.drop_last();
        lemma_group_order(rest, c);
        assert forall|k: int|
            0 <= k < positions_of(bugs, c).len() implies #[trigger] group_of(bugs, c)[k]
            == bugs[positions_of(bugs, c)[k]] by {
            if k < positions_of(rest, c).len() {
                assert(group_of(rest, c)[k] == rest[positions_of(rest, c)[k]]);
                assert(rest[positions_of(rest, c)[k]] == bugs[positions_of(rest, c)[k]]);
            }
        }
        assert forall|i: int|
            0 <= i < bugs.len() && category_of(#[trigger] bugs[i]@) == c implies positions_of(
            bugs,
            c,
        ).contains(i) by {
            if i < bugs.len() - 1 {
                assert(category_of(rest[i]@) == c);
                assert(positions_of(rest, c).contains(i));
                let k = choose|k: int|
                    0 <= k < positions_of(rest, c).len() && positions_of(rest, c)[k] == i;
                assert(positions_of(bugs, c)[k] == i);
            } else {
                assert(positions_of(bugs, c).last() == i);
            }
        }
    }
}

/// Category coverage: each item of the grouped set appears in the group of
/// its category, a group holds only items of its own category taken from
/// the input, and the groups' sizes add up to the input's — so every item
/// stands in exactly one group.
pub proof fn lemma_category_coverage(bugs: Seq<Bug>)
    ensures
        group_size_sum(bugs) == bugs.len(),
        forall|b: Bug| #[trigger]
            bugs.contains(b) ==> group_of(bugs, category_of(b@)).contains(b),
        forall|b: Bug, c: BugCategory| #[trigger]
            group_of(bugs, c).contains(b) ==> c == category_of(b@) && bugs.contains(b),
    decreases bugs.len(),
{
    if bugs.len() > 0 {
        let rest = bugs.drop_last();
        lemma_category_coverage(rest);
        assert forall|b: Bug| #[trigger] bugs.contains(b) implies group_of(
            bugs,
            category_of(b@),
        ).contains(b) by {
            let i = choose|i: int| 0 <= i < bugs.len() && bugs[i] == b;
            if i < bugs.len() - 1 {
                assert(rest[i] == b);
                assert(rest.contains(b));
                let c = category_of(b@);
                let j = choose|j: int|
                    0 <= j < group_of(rest, c).len() && group_of(rest, c)[j] == b;
                assert(group_of(bugs, c)[j] == b);
                assert(group_of(bugs, c).contains(b));
            } else {
                let c = category_of(b@);
                assert(group_of(bugs, c).last() == b);
                assert(group_of(bugs, c).contains(b));
            }
        }
        assert forall|b: Bug, c: BugCategory| #[trigger] group_of(bugs, c).contains(b) implies c
            == category_of(b@) && bugs.contains(b) by {
            let i = choose|i: int| 0 <= i < group_of(bugs, c).len() && group_of(bugs, c)[i] == b;
            if category_of(bugs.last()@) == c && i == group_of(bugs, c).len() - 1 {
                assert(bugs[bugs.len() - 1] == b);
            } else {
                assert(group_of(rest, c).contains(b));
                let j = choose|j: int| 0 <= j < rest.len() && rest[j] == b;
                assert(bugs[j] == b);
            }
        }
    }
}

} // verus!
