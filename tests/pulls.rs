use local_code_agent::json::Json;
use local_code_agent::models::{Platform, Repository};
use local_code_agent::pulls::{
    extract_pulls_from_result, filter_related_prs, get_list_pulls_tool, is_related_pr,
    list_pulls_args, parse_pull_request, related_by_matches, PullRequest,
};

fn to_json(v: serde_json::Value) -> Json {
    match v {
        serde_json::Value::Null => Json::Null,
        serde_json::Value::Bool(b) => Json::Bool(b),
        serde_json::Value::Number(n) => match n.as_i64() {
            Some(i) => Json::Int(i),
            None => Json::OtherNumber,
        },
        serde_json::Value::String(s) => Json::Str(s),
        serde_json::Value::Array(a) => Json::Array(a.into_iter().map(to_json).collect()),
        serde_json::Value::Object(m) => {
            Json::Object(m.into_iter().map(|(k, x)| (k, to_json(x))).collect())
        }
    }
}

fn j(text: &str) -> Json {
    to_json(serde_json::from_str(text).unwrap())
}

fn pr(title: &str, body: Option<&str>, head: Option<&str>) -> PullRequest {
    PullRequest {
        number: 1,
        title: title.to_string(),
        body: body.map(String::from),
        state: "open".to_string(),
        head_branch: head.map(String::from),
        base_branch: None,
        html_url: String::new(),
        merged: false,
        created_at: String::new(),
        updated_at: String::new(),
    }
}

const RECORDS: &str = r#"[{"number":1,"title":"a","head":{"ref":"issue-42"},"base":{"ref":"main"},"merged":true},{"title":"x"},{"number":2,"title":"b","head_branch":"fix/7","base_branch":"dev","merged_at":"2024-01-01"},{"number":3,"title":"c","merged_at":null}]"#;

fn summary(v: &[PullRequest]) -> Vec<(i32, Option<String>, Option<String>, bool)> {
    v.iter().map(|p| (p.number, p.head_branch.clone(), p.base_branch.clone(), p.merged)).collect()
}

fn expected() -> Vec<(i32, Option<String>, Option<String>, bool)> {
    vec![
        (1, Some("issue-42".into()), Some("main".into()), true),
        (2, Some("fix/7".into()), Some("dev".into()), true),
        (3, None, None, false),
    ]
}

#[test]
fn pulls_from_bare_array() {
    assert_eq!(summary(&extract_pulls_from_result(&j(RECORDS))), expected());
}

#[test]
fn pulls_from_text_envelope() {
    let env = Json::Object(vec![(
        "content".to_string(),
        Json::Array(vec![Json::Object(vec![("text".to_string(), Json::Str(RECORDS.to_string()))])]),
    )]);
    assert_eq!(summary(&extract_pulls_from_result(&env)), expected());
}

#[test]
fn pulls_from_nested_text_envelope() {
    let env = Json::Object(vec![(
        "content".to_string(),
        Json::Array(vec![Json::Object(vec![(
            "text".to_string(),
            Json::Object(vec![("text".to_string(), Json::Str(RECORDS.to_string()))]),
        )])]),
    )]);
    assert_eq!(summary(&extract_pulls_from_result(&env)), expected());
}

#[test]
fn pull_from_single_object() {
    let v = extract_pulls_from_result(&j(r#"{"number":9,"title":"one","html_url":"u"}"#));
    assert_eq!(v.len(), 1);
    assert_eq!(v[0].html_url, "u");
    assert_eq!(v[0].state, "open");
    assert!(extract_pulls_from_result(&j(r#"{"title":"none"}"#)).is_empty());
}

#[test]
fn pull_defaults() {
    let p = parse_pull_request(&j(r#"{"number":4,"title":"t"}"#)).unwrap();
    assert_eq!(p.body, None);
    assert_eq!(p.html_url, "");
    assert!(!p.merged);
    assert!(parse_pull_request(&j(r#"{"number":4}"#)).is_none());
}

#[test]
fn pulls_tool_and_arguments() {
    assert_eq!(get_list_pulls_tool(Platform::GitHub), "list_pull_requests");
    assert_eq!(get_list_pulls_tool(Platform::Gitea), "list_repo_pull_requests");
    let repo = Repository {
        id: 1,
        mcp_server_name: "gitea".to_string(),
        platform: Platform::Gitea,
        base_url: String::new(),
        name: "r".to_string(),
        url: String::new(),
        owner: "o".to_string(),
        repo_name: "r".to_string(),
        local_path: None,
        last_synced_at: None,
        created_at: String::new(),
        updated_at: String::new(),
    };
    match list_pulls_args(&repo, None) {
        Json::Object(f) => {
            assert_eq!(f.len(), 3);
            assert_eq!(f[2].0, "state");
            assert!(matches!(&f[2].1, Json::Str(s) if s == "open"));
        }
        _ => panic!("not an object"),
    }
}

#[test]
fn related_by_title_body_or_branch() {
    assert!(is_related_pr(&pr("Fixes #42", None, None), 42));
    assert!(is_related_pr(&pr("Update docs", Some("this CLOSES   #42 finally"), None), 42));
    assert!(is_related_pr(&pr("x", None, Some("feature/issue-42")), 42));
    assert!(is_related_pr(&pr("x", None, Some("user/42")), 42));
    assert!(is_related_pr(&pr("x", None, Some("fix-42-typo")), 42));
    assert!(!is_related_pr(&pr("Fixes 42", Some("nothing"), Some("main")), 42));
    assert!(!is_related_pr(&pr("x", None, Some("issue-7")), 42));
}

#[test]
fn related_given_matches() {
    let p = pr("x", None, Some("main"));
    assert!(related_by_matches(&p, 3, true, false));
    assert!(related_by_matches(&p, 3, false, true));
    assert!(!related_by_matches(&p, 3, false, false));
    assert!(related_by_matches(&pr("x", None, Some("issue/3")), 3, false, false));
}

#[test]
fn filter_keeps_related_in_order() {
    let prs = vec![
        pr("Fixes #5", None, None),
        pr("other", None, None),
        pr("b", None, Some("fix/5")),
    ];
    let kept = filter_related_prs(prs, 5);
    let titles: Vec<String> = kept.into_iter().map(|p| p.title).collect();
    assert_eq!(titles, vec!["Fixes #5".to_string(), "b".to_string()]);
}
