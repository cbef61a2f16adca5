use bug_triage::classify::AnalysisResult;
use bug_triage::classify::BugCategory;
use bug_triage::classify::QuestionableCategory;
use bug_triage::classify::analyze_bugs;
use bug_triage::classify::categorize_bug;
use bug_triage::classify::categorize_bugs;
use bug_triage::classify::is_questionable;
use bug_triage::model::Bug;

fn make_bug(id: u64, title: &str, description: Option<&str>) -> Bug {
    Bug {
        id,
        title: title.to_string(),
        state: "Active".to_string(),
        created_date: None,
        activated_date: None,
        description: description.map(|s| s.to_string()),
    }
}

#[test]
fn empty_description_is_flagged() {
    let bug = make_bug(2, "x", Some(""));
    assert_eq!(
        is_questionable(&bug),
        Some(QuestionableCategory::EmptyMinimalDescription)
    );
}

#[test]
fn missing_description_is_flagged_as_empty() {
    let bug = make_bug(7, "title", None);
    assert_eq!(
        is_questionable(&bug),
        Some(QuestionableCategory::EmptyMinimalDescription)
    );
}

#[test]
fn whitespace_only_description_is_flagged_as_empty() {
    let bug = make_bug(8, "title", Some("   \t\n  "));
    assert_eq!(
        is_questionable(&bug),
        Some(QuestionableCategory::EmptyMinimalDescription)
    );
}

#[test]
fn short_description_is_flagged_as_single_word() {
    let bug = make_bug(9, "title", Some("broken"));
    assert_eq!(
        is_questionable(&bug),
        Some(QuestionableCategory::SingleWordDescription)
    );
}

#[test]
fn short_description_counts_trimmed_length() {
    // Seven characters once the padding is trimmed.
    let bug = make_bug(10, "title", Some("  http404  "));
    assert_eq!(
        is_questionable(&bug),
        Some(QuestionableCategory::SingleWordDescription)
    );
}

#[test]
fn symbol_soup_is_flagged() {
    let bug = make_bug(11, "title", Some("!!!???***&&&"));
    assert_eq!(
        is_questionable(&bug),
        Some(QuestionableCategory::SpecialCharactersSoup)
    );
}

#[test]
fn symbol_soup_wins_over_duplicate_title() {
    // The description equals the title, yet the soup rule comes first.
    let bug = make_bug(12, "!!!!!!!!", Some("!!!!!!!!"));
    assert_eq!(
        is_questionable(&bug),
        Some(QuestionableCategory::SpecialCharactersSoup)
    );
}

#[test]
fn duplicate_title_is_flagged() {
    let bug = make_bug(13, "crash on startup", Some("crash on startup"));
    assert_eq!(
        is_questionable(&bug),
        Some(QuestionableCategory::DuplicateTitleDescription)
    );
}

#[test]
fn duplicate_title_matches_after_trimming() {
    let bug = make_bug(14, "crash on startup", Some("  crash on startup  "));
    assert_eq!(
        is_questionable(&bug),
        Some(QuestionableCategory::DuplicateTitleDescription)
    );
}

#[test]
fn dead_links_are_flagged() {
    let bug = make_bug(
        3,
        "Broken link",
        Some("See http://example.com/page -> 404"),
    );
    assert_eq!(is_questionable(&bug), Some(QuestionableCategory::DeadLinks));
}

#[test]
fn good_description_is_actionable() {
    let bug = make_bug(
        1,
        "App crashes",
        Some("System crashes on boot with bugcheck 0x1E"),
    );
    assert_eq!(is_questionable(&bug), None);
}

#[test]
fn crash_scenario_is_categorized_crash() {
    let bug = make_bug(
        1,
        "App crashes",
        Some("System crashes on boot with bugcheck 0x1E"),
    );
    assert_eq!(is_questionable(&bug), None);
    assert_eq!(categorize_bug(&bug), BugCategory::Crash);
}

#[test]
fn crash_wins_over_performance() {
    // Both "crash" and "slow" occur; the crash group is tried first.
    let bug = make_bug(4, "Regression", Some("app is slow and then crashes"));
    assert_eq!(categorize_bug(&bug), BugCategory::Crash);
}

#[test]
fn categorization_is_case_insensitive() {
    let bug = make_bug(5, "BSOD ON BOOT", Some("THE MACHINE SHOWS A BLUE SCREEN"));
    assert_eq!(categorize_bug(&bug), BugCategory::Crash);
}

#[test]
fn keyword_in_title_counts() {
    let bug = make_bug(6, "memory leak", Some("grows without bound over a day"));
    assert_eq!(categorize_bug(&bug), BugCategory::Memory);
}

#[test]
fn no_keyword_is_other() {
    let bug = make_bug(15, "odd behaviour", Some("something is wrong somewhere"));
    assert_eq!(categorize_bug(&bug), BugCategory::Other);
}

fn sample_batch() -> Vec<Bug> {
    vec![
        make_bug(1, "App crashes", Some("System crashes on boot with bugcheck 0x1E")),
        make_bug(2, "x", Some("")),
        make_bug(3, "Broken link", Some("See http://example.com/page -> 404")),
        make_bug(4, "Slow search", Some("Searching the list takes minutes and hangs")),
        make_bug(5, "Leak", Some("memory usage grows until out of memory")),
        make_bug(6, "Odd", Some("no keyword of any group occurs here xyz")),
    ]
}

#[test]
fn partition_is_complete() {
    let bugs = sample_batch();
    let total = bugs.len();
    let AnalysisResult { actionable, questionable } = analyze_bugs(bugs);
    assert_eq!(actionable.len() + questionable.len(), total);
    for b in &actionable {
        assert!(is_questionable(b).is_none());
    }
    for (b, reason) in &questionable {
        assert_eq!(is_questionable(b).as_ref(), Some(reason));
    }
    let actionable_ids: Vec<u64> = actionable.iter().map(|b| b.id).collect();
    for (b, _) in &questionable {
        assert!(!actionable_ids.contains(&b.id));
    }
    assert_eq!(actionable_ids, vec![1, 4, 5, 6]);
    let questionable_ids: Vec<u64> = questionable.iter().map(|(b, _)| b.id).collect();
    assert_eq!(questionable_ids, vec![2, 3]);
}

#[test]
fn classify_twice_gives_identical_partitions() {
    let first = analyze_bugs(sample_batch());
    let second = analyze_bugs(sample_batch());
    let ids = |v: &Vec<Bug>| v.iter().map(|b| b.id).collect::<Vec<u64>>();
    assert_eq!(ids(&first.actionable), ids(&second.actionable));
    let pairs = |v: &Vec<(Bug, QuestionableCategory)>| {
        v.iter().map(|(b, c)| (b.id, c.clone())).collect::<Vec<(u64, QuestionableCategory)>>()
    };
    assert_eq!(pairs(&first.questionable), pairs(&second.questionable));
}

#[test]
fn groups_cover_the_actionable_set_exactly_once() {
    let AnalysisResult { actionable, questionable: _ } = analyze_bugs(sample_batch());
    let groups = categorize_bugs(&actionable);
    let all_groups: Vec<(BugCategory, &Vec<Bug>)> = vec![
        (BugCategory::Crash, &groups.crash),
        (BugCategory::Performance, &groups.performance),
        (BugCategory::Security, &groups.security),
        (BugCategory::FileSystem, &groups.file_system),
        (BugCategory::Memory, &groups.memory),
        (BugCategory::Driver, &groups.driver),
        (BugCategory::Boot, &groups.boot),
        (BugCategory::UI, &groups.ui),
        (BugCategory::Network, &groups.network),
        (BugCategory::Other, &groups.other),
    ];
    let mut seen: usize = 0;
    for (cat, members) in &all_groups {
        seen += members.len();
        for b in members.iter() {
            assert_eq!(categorize_bug(b), *cat);
        }
    }
    assert_eq!(seen, actionable.len());
    for b in &actionable {
        let cat = categorize_bug(b);
        let (_, members) = all_groups.iter().find(|(c, _)| *c == cat).unwrap();
        assert!(members.iter().any(|m| m.id == b.id));
    }
    assert_eq!(groups.crash.iter().map(|b| b.id).collect::<Vec<u64>>(), vec![1]);
    assert_eq!(groups.performance.iter().map(|b| b.id).collect::<Vec<u64>>(), vec![4]);
    assert_eq!(groups.memory.iter().map(|b| b.id).collect::<Vec<u64>>(), vec![5]);
    assert_eq!(groups.other.iter().map(|b| b.id).collect::<Vec<u64>>(), vec![6]);
}

#[test]
fn groups_keep_order_of_arrival() {
    let bugs = vec![
        make_bug(21, "crash one", Some("the first crash in the batch")),
        make_bug(22, "slow thing", Some("everything is slow after noon")),
        make_bug(23, "crash two", Some("the second crash in the batch")),
    ];
    let groups = categorize_bugs(&bugs);
    assert_eq!(groups.crash.iter().map(|b| b.id).collect::<Vec<u64>>(), vec![21, 23]);
    assert_eq!(groups.performance.iter().map(|b| b.id).collect::<Vec<u64>>(), vec![22]);
}
