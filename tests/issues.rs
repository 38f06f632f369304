use local_code_agent::issues::{
    build_issue_url, extract_comments_from_result, extract_issues_from_result,
    get_issue_args, get_issue_comments_args, get_list_issue_comments_tool, get_list_issues_tool,
    get_read_issue_tool, issue_from_read_result, list_issues_args, normalize_issue_state,
    parse_comment, parse_issue, Issue,
};
use local_code_agent::json::Json;
use local_code_agent::models::{AppError, Platform, Repository};

fn to_json(v: serde_json::Value) -> Json {
    match v {
        serde_json::Value::Null => Json::Null,
        serde_json::Value::Bool(b) => Json::Bool(b),
        serde_json::Value::Number(n) => match n.as_i64() {
            Some(i) => Json::Int(i),
            None => Json::OtherNumber,
        },
        serde_json::Value::String(s) => Json::Str(s),
        serde_json::Value::Array(a) => Json::Array(a.into_iter().map(to_json).collect()),
        serde_json::Value::Object(m) => {
            Json::Object(m.into_iter().map(|(k, x)| (k, to_json(x))).collect())
        }
    }
}

fn j(text: &str) -> Json {
    to_json(serde_json::from_str(text).unwrap())
}

fn text(s: &str) -> Json {
    Json::Str(s.to_string())
}

fn repo(platform: Platform) -> Repository {
    Repository {
        id: 1,
        mcp_server_name: "github".to_string(),
        platform,
        base_url: "https://github.com".to_string(),
        name: "r".to_string(),
        url: "https://github.com/o/r".to_string(),
        owner: "o".to_string(),
        repo_name: "r".to_string(),
        local_path: None,
        last_synced_at: None,
        created_at: String::new(),
        updated_at: String::new(),
    }
}

const URL: &str = "https://github.com/o/r";
const RECORDS: &str = r#"[{"number":1,"title":"first","labels":["bug",{"name":"ui"}],"user":{"login":"al"}},{"title":"no number"},{"number":2,"title":"second","user":"bo","state":"closed"}]"#;

fn summary(issues: &[Issue]) -> Vec<(i32, String, String, Vec<String>, String)> {
    issues
        .iter()
        .map(|i| (i.number, i.title.clone(), i.state.clone(), i.labels.clone(), i.user.clone()))
        .collect()
}

fn expected() -> Vec<(i32, String, String, Vec<String>, String)> {
    vec![
        (1, "first".into(), "open".into(), vec!["bug".into(), "ui".into()], "al".into()),
        (2, "second".into(), "closed".into(), vec![], "bo".into()),
    ]
}

#[test]
fn issues_from_wrapper_object() {
    let result = j(&format!(r#"{{"issues":{},"totalCount":3}}"#, RECORDS));
    let issues = extract_issues_from_result(&result, URL, Platform::GitHub);
    assert_eq!(summary(&issues), expected());
}

#[test]
fn issues_from_bare_array() {
    let issues = extract_issues_from_result(&j(RECORDS), URL, Platform::Gitea);
    assert_eq!(summary(&issues), expected());
}

#[test]
fn issues_from_text_envelope() {
    let result = Json::Object(vec![(
        "content".to_string(),
        Json::Array(vec![Json::Object(vec![("text".to_string(), text(RECORDS))])]),
    )]);
    let issues = extract_issues_from_result(&result, URL, Platform::Gitea);
    assert_eq!(summary(&issues), expected());
}

#[test]
fn issues_from_nested_text_envelope_with_wrapper() {
    let inner = format!(r#"{{"issues":{}}}"#, RECORDS);
    let result = Json::Object(vec![(
        "content".to_string(),
        Json::Array(vec![
            Json::Object(vec![("type".to_string(), text("text"))]),
            Json::Object(vec![("text".to_string(), text("not json"))]),
            Json::Object(vec![(
                "text".to_string(),
                Json::Object(vec![("text".to_string(), text(&inner))]),
            )]),
        ]),
    )]);
    let issues = extract_issues_from_result(&result, URL, Platform::GitHub);
    assert_eq!(summary(&issues), expected());
}

#[test]
fn issue_from_single_object() {
    let result = j(r#"{"number":7,"title":"only","body":"text"}"#);
    let issues = extract_issues_from_result(&result, URL, Platform::GitHub);
    assert_eq!(issues.len(), 1);
    assert_eq!(issues[0].number, 7);
    assert_eq!(issues[0].body.as_deref(), Some("text"));
    assert_eq!(issues[0].html_url, "https://github.com/o/r/issues/7");
}

#[test]
fn unknown_shape_yields_no_issues() {
    assert!(extract_issues_from_result(&j(r#"{"message":"nothing"}"#), URL, Platform::GitHub).is_empty());
    assert!(extract_issues_from_result(&j("null"), URL, Platform::GitHub).is_empty());
    assert!(extract_issues_from_result(&j(r#"{"number":"x","title":"t"}"#), URL, Platform::GitHub).is_empty());
}

#[test]
fn issue_defaults_for_missing_and_malformed_fields() {
    let v = j(r#"{"number":3,"title":"t","body":5,"state":null,"labels":"bug","user":{"id":1}}"#);
    let i = parse_issue(&v, "https://git.example/o/r//", Platform::Gitea).unwrap();
    assert_eq!(i.body, None);
    assert_eq!(i.state, "open");
    assert!(i.labels.is_empty());
    assert_eq!(i.user, "");
    assert_eq!(i.html_url, "https://git.example/o/r/issues/3");
    assert_eq!(i.created_at, "");
    assert_eq!(i.updated_at, "");
}

#[test]
fn issue_keeps_given_fields() {
    let v = j(r#"{"number":3,"title":"t","html_url":"https://h/3","created_at":"c","updated_at":"u"}"#);
    let i = parse_issue(&v, URL, Platform::GitHub).unwrap();
    assert_eq!(i.html_url, "https://h/3");
    assert_eq!(i.created_at, "c");
    assert_eq!(i.updated_at, "u");
}

#[test]
fn issue_without_required_field_is_dropped() {
    assert!(parse_issue(&j(r#"{"title":"t"}"#), URL, Platform::GitHub).is_none());
    assert!(parse_issue(&j(r#"{"number":1}"#), URL, Platform::GitHub).is_none());
    assert!(parse_issue(&j(r#"{"number":1,"title":7}"#), URL, Platform::GitHub).is_none());
    assert!(parse_issue(&j(r#"{"number":3000000000,"title":"t"}"#), URL, Platform::GitHub).is_none());
    assert!(parse_issue(&j(r#"{"number":1.5,"title":"t"}"#), URL, Platform::GitHub).is_none());
}

#[test]
fn issue_url_drops_trailing_slashes() {
    assert_eq!(build_issue_url("https://github.com/o/r/", 42, Platform::GitHub), "https://github.com/o/r/issues/42");
    assert_eq!(build_issue_url("https://gitea.local/o/r", -3, Platform::Gitea), "https://gitea.local/o/r/issues/-3");
}

#[test]
fn tool_names_per_platform() {
    assert_eq!(get_list_issues_tool(Platform::GitHub), "list_issues");
    assert_eq!(get_list_issues_tool(Platform::Gitea), "list_repo_issues");
    assert_eq!(get_read_issue_tool(Platform::GitHub), "issue_read");
    assert_eq!(get_read_issue_tool(Platform::Gitea), "get_issue_by_index");
    assert_eq!(get_list_issue_comments_tool(Platform::GitHub), "issue_read");
    assert_eq!(get_list_issue_comments_tool(Platform::Gitea), "get_issue_comments");
}

#[test]
fn issue_state_normalization() {
    assert_eq!(normalize_issue_state("all", Platform::GitHub), None);
    assert_eq!(normalize_issue_state("ALL", Platform::GitHub), None);
    assert_eq!(normalize_issue_state("open", Platform::Gitea), Some("open".to_string()));
    assert_eq!(normalize_issue_state("Open", Platform::GitHub), Some("OPEN".to_string()));
    assert_eq!(normalize_issue_state("Closed", Platform::Gitea), Some("closed".to_string()));
    assert_eq!(normalize_issue_state("all", Platform::Gitea), Some("all".to_string()));
    assert_eq!(normalize_issue_state("cLoSeD", Platform::GitHub), Some("CLOSED".to_string()));
}

fn members(v: &Json) -> Vec<(String, String)> {
    match v {
        Json::Object(f) => f
            .iter()
            .map(|(k, x)| {
                let val = match x {
                    Json::Str(s) => s.clone(),
                    Json::Int(n) => n.to_string(),
                    _ => "?".to_string(),
                };
                (k.clone(), val)
            })
            .collect(),
        _ => panic!("not an object"),
    }
}

fn pairs(p: &[(&str, &str)]) -> Vec<(String, String)> {
    p.iter().map(|(a, b)| (a.to_string(), b.to_string())).collect()
}

#[test]
fn list_issue_arguments_per_platform() {
    let gh = list_issues_args(&repo(Platform::GitHub), Some("all".to_string()));
    assert_eq!(members(&gh), pairs(&[("owner", "o"), ("repo", "r")]));
    let gh_default = list_issues_args(&repo(Platform::GitHub), None);
    assert_eq!(members(&gh_default), pairs(&[("owner", "o"), ("repo", "r"), ("state", "OPEN")]));
    let gitea = list_issues_args(&repo(Platform::Gitea), Some("all".to_string()));
    assert_eq!(members(&gitea), pairs(&[("owner", "o"), ("repo", "r"), ("state", "all")]));
}

#[test]
fn read_issue_arguments_per_platform() {
    let gh = get_issue_args(&repo(Platform::GitHub), 42);
    assert_eq!(members(&gh), pairs(&[("owner", "o"), ("repo", "r"), ("issue_number", "42"), ("method", "get")]));
    let gitea = get_issue_args(&repo(Platform::Gitea), 42);
    assert_eq!(members(&gitea), pairs(&[("owner", "o"), ("repo", "r"), ("issue_number", "42")]));
    let comments = get_issue_comments_args(&repo(Platform::GitHub), 9);
    assert_eq!(members(&comments), pairs(&[("owner", "o"), ("repo", "r"), ("issue_number", "9"), ("method", "get_comments")]));
}

#[test]
fn read_result_from_envelope_or_direct() {
    let env = Json::Object(vec![(
        "content".to_string(),
        Json::Array(vec![Json::Object(vec![("text".to_string(), text(r#"{"number":5,"title":"five"}"#))])]),
    )]);
    let i = issue_from_read_result(&env, URL, Platform::GitHub, 5).unwrap();
    assert_eq!(i.title, "five");
    let direct = j(r#"{"number":6,"title":"six"}"#);
    assert_eq!(issue_from_read_result(&direct, URL, Platform::Gitea, 6).unwrap().number, 6);
}

#[test]
fn read_result_without_issue_is_not_found() {
    match issue_from_read_result(&j(r#"{"error":"x"}"#), URL, Platform::GitHub, 5) {
        Err(AppError::NotFound(m)) => assert_eq!(m, "Issue #5 not found"),
        other => panic!("unexpected {:?}", other),
    }
}

#[test]
fn comments_from_each_shape() {
    let records = r#"[{"id":1,"body":"hi","user":"al"},{"id":2},{"id":3,"body":"yo","user":{"login":"bo"},"created_at":"c"}]"#;
    let expect = vec![(1i64, "hi".to_string(), "al".to_string()), (3, "yo".to_string(), "bo".to_string())];
    let view = |v: Vec<local_code_agent::issues::IssueComment>| {
        v.into_iter().map(|c| (c.id, c.body, c.user)).collect::<Vec<_>>()
    };
    let wrapped = j(&format!(r#"{{"comments":{}}}"#, records));
    assert_eq!(view(extract_comments_from_result(&wrapped)), expect);
    assert_eq!(view(extract_comments_from_result(&j(records))), expect);
    let env = Json::Object(vec![(
        "content".to_string(),
        Json::Array(vec![Json::Object(vec![("text".to_string(), text(records))])]),
    )]);
    assert_eq!(view(extract_comments_from_result(&env)), expect);
    assert!(extract_comments_from_result(&j(r#"{"id":1,"body":"single"}"#)).is_empty());
}

#[test]
fn comment_requires_id_and_body() {
    assert!(parse_comment(&j(r#"{"body":"b"}"#)).is_none());
    assert!(parse_comment(&j(r#"{"id":1}"#)).is_none());
    let c = parse_comment(&j(r#"{"id":1,"body":"b"}"#)).unwrap();
    assert_eq!(c.user, "");
    assert_eq!(c.created_at, "");
}
