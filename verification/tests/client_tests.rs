use bug_triage::client::batch_request;
use bug_triage::client::ids_from_entries;
use bug_triage::client::json_escape;
use bug_triage::client::parse_batch_response;
use bug_triage::client::parse_wiql_response;
use bug_triage::client::wiql_request;
use bug_triage::config::AppConfig;
use bug_triage::config::config_from_values;
use bug_triage::text::str_contains;
use bug_triage::text::str_eq;
use bug_triage::text::trim_str;
use bug_triage::text::u64_string;

fn test_config() -> AppConfig {
    AppConfig {
        org: "contoso".to_string(),
        project: "widgets".to_string(),
        user_email: "dev@example.com".to_string(),
        azure_devops_pat: "token123".to_string(),
        openai_api_key: None,
        ai_enabled: false,
    }
}

#[test]
fn u64_string_renders_decimals() {
    assert_eq!(u64_string(0), "0");
    assert_eq!(u64_string(7), "7");
    assert_eq!(u64_string(12345), "12345");
    assert_eq!(u64_string(u64::MAX), "18446744073709551615");
}

#[test]
fn trim_removes_surrounding_whitespace() {
    assert_eq!(trim_str("  hello world \t"), "hello world");
    assert_eq!(trim_str("solid"), "solid");
    assert_eq!(trim_str("   "), "");
}

#[test]
fn substring_search_matches_std() {
    assert!(str_contains("the quick brown fox", "quick"));
    assert!(str_contains("abc", ""));
    assert!(!str_contains("abc", "abcd"));
    assert!(!str_contains("the quick brown fox", "slow"));
}

#[test]
fn char_equality_matches_std() {
    assert!(str_eq("same", "same"));
    assert!(!str_eq("same", "sam"));
    assert!(!str_eq("same", "sames"));
}

#[test]
fn json_escape_handles_quotes_and_controls() {
    assert_eq!(json_escape("plain"), "plain");
    assert_eq!(json_escape("a\"b"), "a\\\"b");
    assert_eq!(json_escape("a\\b"), "a\\\\b");
    assert_eq!(json_escape("a\nb\tc"), "a\\u000ab\\u0009c");
}

#[test]
fn wiql_request_is_addressed_and_authenticated() {
    let req = wiql_request(&test_config());
    assert_eq!(
        req.url,
        "https://dev.azure.com/contoso/widgets/_apis/wit/wiql?api-version=7.0"
    );
    assert_eq!(req.auth_header, "Basic OnRva2VuMTIz");
    let parsed: serde_json::Value = serde_json::from_str(&req.body).unwrap();
    let query = parsed.get("query").unwrap().as_str().unwrap();
    assert_eq!(
        query,
        "SELECT [System.Id] FROM WorkItems WHERE [System.WorkItemType] = 'Bug' AND \
         [System.State] <> 'Closed' AND [System.AssignedTo] = 'dev@example.com' ORDER BY \
         [System.CreatedDate] DESC"
    );
}

#[test]
fn wiql_body_survives_a_quoting_email() {
    let mut config = test_config();
    config.user_email = "o'brien\"x".to_string();
    let req = wiql_request(&config);
    let parsed: serde_json::Value = serde_json::from_str(&req.body).unwrap();
    let query = parsed.get("query").unwrap().as_str().unwrap();
    assert!(query.contains("o'brien\"x"));
}

#[test]
fn batch_request_lists_ids_and_fields() {
    let req = batch_request(&test_config(), &vec![3, 1, 4]);
    assert_eq!(
        req.url,
        "https://dev.azure.com/contoso/widgets/_apis/wit/workitemsbatch?api-version=7.0"
    );
    assert_eq!(req.auth_header, "Basic OnRva2VuMTIz");
    let parsed: serde_json::Value = serde_json::from_str(&req.body).unwrap();
    let ids: Vec<u64> = parsed
        .get("ids")
        .unwrap()
        .as_array()
        .unwrap()
        .iter()
        .map(|v| v.as_u64().unwrap())
        .collect();
    assert_eq!(ids, vec![3, 1, 4]);
    let fields: Vec<&str> = parsed
        .get("fields")
        .unwrap()
        .as_array()
        .unwrap()
        .iter()
        .map(|v| v.as_str().unwrap())
        .collect();
    assert_eq!(
        fields,
        vec![
            "System.Id",
            "System.Title",
            "System.State",
            "System.CreatedDate",
            "System.ActivatedDate",
            "System.Description",
        ]
    );
}

#[test]
fn ids_from_entries_keeps_present_values_in_order() {
    let entries = vec![Some(10), None, Some(20), Some(30), None];
    assert_eq!(ids_from_entries(&entries), vec![10, 20, 30]);
    assert_eq!(ids_from_entries(&Vec::new()), Vec::<u64>::new());
}

#[test]
fn wiql_response_ids_are_extracted() {
    let body = "{\"workItems\":[{\"id\":101},{\"id\":102},{\"url\":\"x\"},{\"id\":103}]}";
    let ids = parse_wiql_response(200, body).unwrap();
    assert_eq!(ids, vec![101, 102, 103]);
}

#[test]
fn wiql_response_with_empty_list_is_empty() {
    assert_eq!(
        parse_wiql_response(200, "{\"workItems\":[]}").unwrap(),
        Vec::<u64>::new()
    );
}

#[test]
fn missing_items_list_is_a_parse_error() {
    let err = parse_wiql_response(200, "{}").unwrap_err();
    assert_eq!(err, "JSON error: missing \"workItems\" array\nRaw response: {}");
    let err = parse_wiql_response(200, "{\"workItems\":5}").unwrap_err();
    assert_eq!(
        err,
        "JSON error: missing \"workItems\" array\nRaw response: {\"workItems\":5}"
    );
}

#[test]
fn missing_rows_list_is_a_parse_error() {
    let err = parse_batch_response(200, "{}").unwrap_err();
    assert_eq!(err, "JSON error: missing \"value\" array\nRaw response: {}");
}

#[test]
fn non_success_status_is_an_api_error() {
    let err = parse_wiql_response(404, "not found").unwrap_err();
    assert_eq!(err, "Azure DevOps API error (404): not found");
    let err = parse_batch_response(503, "busy").unwrap_err();
    assert_eq!(err, "Azure DevOps API error (503): busy");
}

#[test]
fn malformed_body_is_a_parse_error() {
    let err = parse_wiql_response(200, "not json").unwrap_err();
    assert!(err.starts_with("JSON error: "));
    assert!(err.ends_with("\nRaw response: not json"));
}

#[test]
fn batch_response_rows_become_bugs() {
    let body = "{\"value\":[\
        {\"id\":1,\"fields\":{\"System.Title\":\"App crashes\",\"System.State\":\"Active\",\
         \"System.CreatedDate\":\"2024-01-02T03:04:05Z\",\"System.Description\":\"boom\"}},\
        {\"fields\":{\"System.Title\":\"no id here\"}},\
        {\"id\":2,\"fields\":{}}]}";
    let bugs = parse_batch_response(200, body).unwrap();
    assert_eq!(bugs.len(), 2);
    assert_eq!(bugs[0].id, 1);
    assert_eq!(bugs[0].title, "App crashes");
    assert_eq!(bugs[0].state, "Active");
    assert_eq!(bugs[0].created_date.as_deref(), Some("2024-01-02T03:04:05Z"));
    assert_eq!(bugs[0].activated_date, None);
    assert_eq!(bugs[0].description.as_deref(), Some("boom"));
    assert_eq!(bugs[1].id, 2);
    assert_eq!(bugs[1].title, "");
    assert_eq!(bugs[1].state, "");
    assert_eq!(bugs[1].description, None);
}

#[test]
fn config_reports_first_missing_setting() {
    let some = |s: &str| Some(s.to_string());
    assert_eq!(
        config_from_values(None, None, None, None, None).unwrap_err(),
        "Missing AZURE_DEVOPS_ORG"
    );
    assert_eq!(
        config_from_values(some("o"), None, None, None, None).unwrap_err(),
        "Missing AZURE_DEVOPS_PROJECT"
    );
    assert_eq!(
        config_from_values(some("o"), some("p"), None, None, None).unwrap_err(),
        "Missing AZURE_DEVOPS_USER_EMAIL"
    );
    assert_eq!(
        config_from_values(some("o"), some("p"), some("u"), None, None).unwrap_err(),
        "Missing AZURE_DEVOPS_PAT"
    );
}

#[test]
fn config_accepts_complete_settings() {
    let some = |s: &str| Some(s.to_string());
    let config =
        config_from_values(some("o"), some("p"), some("u"), some("t"), some("k")).unwrap();
    assert_eq!(config.org, "o");
    assert_eq!(config.project, "p");
    assert_eq!(config.user_email, "u");
    assert_eq!(config.azure_devops_pat, "t");
    assert_eq!(config.openai_api_key.as_deref(), Some("k"));
    assert!(config.ai_enabled);
    let config = config_from_values(some("o"), some("p"), some("u"), some("t"), None).unwrap();
    assert!(!config.ai_enabled);
    assert_eq!(config.openai_api_key, None);
}
