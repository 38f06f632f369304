//! Issues and their comments: the tool each platform names for them, the
//! arguments it expects, and the records read back from whichever shape the
//! tool returned.
use vstd::prelude::*;
use crate::json::{
    Json, filter_map, items_at, json_from_text, lemma_filter_map_step, opt_int, opt_items,
    opt_text, opt_view, parse_json_text, text_at, text_at_or, text_or, texts,
};
use crate::models::{AppError, Platform, Repository};
use crate::text::{
    all_ascii, ascii_lowered, ascii_uppered, concat3, decimal, decimal_text, lower_of, lowercase, text_eq, trim_end_char,
    trim_end_matches_char, upper_of, uppercase,
};

verus! {

/// An issue as the interface shows it.
#[derive(Clone, Debug)]
pub struct Issue {
    pub number: i32,
    pub title: String,
    pub body: Option<String>,
    pub state: String,
    pub labels: Vec<String>,
    pub user: String,
    pub html_url: String,
    pub created_at: String,
    pub updated_at: String,
}

/// The content of an [`Issue`].
pub struct IssueView {
    pub number: i32,
    pub title: Seq<char>,
    pub body: Option<Seq<char>>,
    pub state: Seq<char>,
    pub labels: Seq<Seq<char>>,
    pub user: Seq<char>,
    pub html_url: Seq<char>,
    pub created_at: Seq<char>,
    pub updated_at: Seq<char>,
}

impl View for Issue {
    type V = IssueView;

    open spec fn view(&self) -> IssueView {
        IssueView {
            number: self.number,
            title: self.title@,
            body: opt_view(self.body),
            state: self.state@,
            labels: texts(self.labels@),
            user: self.user@,
            html_url: self.html_url@,
            created_at: self.created_at@,
            updated_at: self.updated_at@,
        }
    }
}

/// A comment on an issue.
#[derive(Clone, Debug)]
pub struct IssueComment {
    pub id: i64,
    pub user: String,
    pub body: String,
    pub created_at: String,
    pub updated_at: String,
}

/// The content of an [`IssueComment`].
pub struct CommentView {
    pub id: i64,
    pub user: Seq<char>,
    pub body: Seq<char>,
    pub created_at: Seq<char>,
    pub updated_at: Seq<char>,
}

impl View for IssueComment {
    type V = CommentView;

    open spec fn view(&self) -> CommentView {
        CommentView {
            id: self.id,
            user: self.user@,
            body: self.body@,
            created_at: self.created_at@,
            updated_at: self.updated_at@,
        }
    }
}

/// The contents of a list of issues.
pub open spec fn issue_views(v: Seq<Issue>) -> Seq<IssueView> {
    v.map_values(|i: Issue| i@)
}

/// The contents of a list of comments.
pub open spec fn comment_views(v: Seq<IssueComment>) -> Seq<CommentView> {
    v.map_values(|c: IssueComment| c@)
}

// ---------------------------------------------------------------------------
// Tools and arguments
// ---------------------------------------------------------------------------

/// The tool that lists issues on `platform`.
pub fn get_list_issues_tool(platform: Platform) -> (r: &'static str)
    ensures
        r@ == match platform {
            Platform::GitHub => "list_issues"@,
            Platform::Gitea => "list_repo_issues"@,
        },
{
    match platform {
        Platform::GitHub => "list_issues",
        Platform::Gitea => "list_repo_issues",
    }
}

/// The tool that reads one issue on `platform`.
pub fn get_read_issue_tool(platform: Platform) -> (r: &'static str)
    ensures
        r@ == match platform {
            Platform::GitHub => "issue_read"@,
            Platform::Gitea => "get_issue_by_index"@,
        },
{
    match platform {
        Platform::GitHub => "issue_read",
        Platform::Gitea => "get_issue_by_index",
    }
}

/// The tool that lists the comments of an issue on `platform`.
pub fn get_list_issue_comments_tool(platform: Platform) -> (r: &'static str)
    ensures
        r@ == match platform {
            Platform::GitHub => "issue_read"@,
            Platform::Gitea => "get_issue_comments"@,
        },
{
    match platform {
        Platform::GitHub => "issue_read",
        Platform::Gitea => "get_issue_comments",
    }
}

/// The state filter that `platform` expects for an already lower-cased
/// state: GitHub takes upper case and no filter for "all"; Gitea takes the
/// lower case as it is.
pub open spec fn state_filter_of_lowered(lowered: Seq<char>, platform: Platform) -> Option<
    Seq<char>,
> {
    match platform {
        Platform::GitHub => if lowered == "all"@ {
            None
        } else {
            Some(upper_of(lowered))
        },
        Platform::Gitea => Some(lowered),
    }
}

/// The state filter for an ASCII state: on GitHub none for "all" (in any
/// case), else the state in upper case; on Gitea the state in lower case.
pub open spec fn ascii_state_filter(state: Seq<char>, platform: Platform) -> Option<Seq<char>> {
    match platform {
        Platform::GitHub => if ascii_lowered(state) == "all"@ {
            None
        } else {
            Some(ascii_uppered(state))
        },
        Platform::Gitea => Some(ascii_lowered(state)),
    }
}

/// The state filter that `platform` expects for the state a user chose.
pub open spec fn state_filter(state: Seq<char>, platform: Platform) -> Option<Seq<char>> {
    state_filter_of_lowered(lower_of(state), platform)
}

/// The filter for a state that is already lower case.
pub fn state_filter_for_lowered(lowered: &str, platform: Platform) -> (r: Option<String>)
    ensures
        opt_view(r) == state_filter_of_lowered(lowered@, platform),
        all_ascii(lowered@) && platform == Platform::GitHub && lowered@ != "all"@ ==> opt_view(r)
            == Some(ascii_uppered(lowered@)),
{
    match platform {
        Platform::GitHub => if text_eq(lowered, "all") {
            None
        } else {
            Some(uppercase(lowered))
        },
        Platform::Gitea => Some(String::from_str(lowered)),
    }
}

/// Converts an issue state to the form `platform` expects: `None` means
/// the filter is left out (GitHub's way to ask for every state).
pub fn normalize_issue_state(state: &str, platform: Platform) -> (r: Option<String>)
    ensures
        opt_view(r) == state_filter(state@, platform),
        all_ascii(state@) ==> opt_view(r) == ascii_state_filter(state@, platform),
{
    let lowered = lowercase(state);
    proof {
        if all_ascii(state@) {
            crate::text::lemma_ascii_case(state@);
        }
    }
    state_filter_for_lowered(lowered.as_str(), platform)
}

/// "all" on GitHub leaves the state filter out, "open" on GitHub becomes
/// "OPEN", and "open" on Gitea is passed on as it is.
pub proof fn lemma_issue_state_examples()
    ensures
        ascii_state_filter("all"@, Platform::GitHub) is None,
        ascii_state_filter("open"@, Platform::GitHub) == Some("OPEN"@),
        ascii_state_filter("open"@, Platform::Gitea) == Some("open"@),
{
    reveal_strlit("all");
    reveal_strlit("open");
    reveal_strlit("OPEN");
    assert(ascii_lowered("all"@) =~= "all"@);
    assert(ascii_lowered("open"@) =~= "open"@);
    assert(ascii_lowered("open"@) != "all"@) by {
        assert("open"@.len() != "all"@.len());
    }
    assert(ascii_uppered("open"@) =~= "OPEN"@);
}

/// A member `key` whose value is the string `val`.
pub open spec fn text_member(m: (String, Json), key: Seq<char>, val: Seq<char>) -> bool {
    m.0@ == key && m.1.text() == Some(val)
}

/// A member `key` whose value is the integer `val`.
pub open spec fn int_member(m: (String, Json), key: Seq<char>, val: int) -> bool {
    m.0@ == key && m.1.integer() == Some(val as i64)
}

/// A member whose value is a string.
pub(crate) fn text_pair(key: &str, val: &str) -> (r: (String, Json))
    ensures
        text_member(r, key@, val@),
{
    (String::from_str(key), Json::Str(String::from_str(val)))
}

/// The arguments of the issue-listing tool: owner, repo and, unless the
/// platform leaves it out, the state filter. The state defaults to "open".
pub open spec fn list_issues_args_spec(repo: Repository, state: Seq<char>, args: Json) -> bool {
    match args {
        Json::Object(f) => (match state_filter(state, repo.platform) {
            Some(st) => f@.len() == 3 && text_member(f@[2], "state"@, st),
            None => f@.len() == 2,
        }) && text_member(f@[0], "owner"@, repo.owner@) && text_member(
            f@[1],
            "repo"@,
            repo.repo_name@,
        ),
        _ => false,
    }
}

/// Builds the arguments for listing the issues of `repo`.
pub fn list_issues_args(repo: &Repository, state: Option<String>) -> (r: Json)
    ensures
        list_issues_args_spec(
            *repo,
            match state {
                Some(s) => s@,
                None => "open"@,
            },
            r,
        ),
{
    let state_str = match state {
        Some(s) => s,
        None => String::from_str("open"),
    };
    let mut fields: Vec<(String, Json)> = Vec::new();
    fields.push(text_pair("owner", repo.owner.as_str()));
    fields.push(text_pair("repo", repo.repo_name.as_str()));
    match normalize_issue_state(state_str.as_str(), repo.platform) {
        Some(st) => fields.push(text_pair("state", st.as_str())),
        None => {},
    }
    Json::Object(fields)
}

/// The arguments of the tools that read one issue or its comments: owner,
/// repo, issue number and, on GitHub, the method `method`.
pub open spec fn issue_args_spec(
    repo: Repository,
    issue_number: i32,
    method: Seq<char>,
    args: Json,
) -> bool {
    match args {
        Json::Object(f) => text_member(f@[0], "owner"@, repo.owner@) && text_member(
            f@[1],
            "repo"@,
            repo.repo_name@,
        ) && int_member(f@[2], "issue_number"@, issue_number as int) && (match repo.platform {
            Platform::GitHub => f@.len() == 4 && text_member(f@[3], "method"@, method),
            Platform::Gitea => f@.len() == 3,
        }),
        _ => false,
    }
}

/// Builds the arguments for a tool on one issue.
fn issue_args(repo: &Repository, issue_number: i32, method: &str) -> (r: Json)
    ensures
        issue_args_spec(*repo, issue_number, method@, r),
{
    let mut fields: Vec<(String, Json)> = Vec::new();
    fields.push(text_pair("owner", repo.owner.as_str()));
    fields.push(text_pair("repo", repo.repo_name.as_str()));
    fields.push((String::from_str("issue_number"), Json::Int(issue_number as i64)));
    match repo.platform {
        Platform::GitHub => fields.push(text_pair("method", method)),
        Platform::Gitea => {},
    }
    Json::Object(fields)
}

/// Builds the arguments for reading one issue.
pub fn get_issue_args(repo: &Repository, issue_number: i32) -> (r: Json)
    ensures
        issue_args_spec(*repo, issue_number, "get"@, r),
{
    issue_args(repo, issue_number, "get")
}

/// Builds the arguments for listing the comments of one issue.
pub fn get_issue_comments_args(repo: &Repository, issue_number: i32) -> (r: Json)
    ensures
        issue_args_spec(*repo, issue_number, "get_comments"@, r),
{
    issue_args(repo, issue_number, "get_comments")
}

// ---------------------------------------------------------------------------
// Reading issues
// ---------------------------------------------------------------------------

/// The web address of an issue, built from the repository's address.
pub open spec fn issue_url(repo_url: Seq<char>, number: int) -> Seq<char> {
    trim_end_char(repo_url, '/') + "/issues/"@ + decimal(number)
}

/// Builds the web address of an issue; trailing slashes of the repository
/// address are dropped.
pub fn build_issue_url(repo_url: &str, issue_number: i32, platform: Platform) -> (r: String)
    ensures
        r@ == issue_url(repo_url@, issue_number as int),
{
    let base = trim_end_matches_char(repo_url, '/');
    let n = decimal_text(issue_number as i64);
    match platform {
        Platform::GitHub => concat3(base, "/issues/", n.as_str()),
        Platform::Gitea => concat3(base, "/issues/", n.as_str()),
    }
}

/// The name of a label given as a string or as an object with a `name`.
pub open spec fn label_name(l: Json) -> Option<Seq<char>> {
    match l.text() {
        Some(t) => Some(t),
        None => opt_text(l.field("name"@)),
    }
}

/// Reads a label name.
pub open spec fn label_reader() -> spec_fn(Json) -> Option<Seq<char>> {
    |l: Json| label_name(l)
}

/// The label names of an optional label array; entries of another shape are
/// skipped.
pub open spec fn labels_of(o: Option<Json>) -> Seq<Seq<char>> {
    match opt_items(o) {
        Some(a) => filter_map(a, label_reader()),
        None => Seq::empty(),
    }
}

/// The login of a user given as a string or as an object with a `login`;
/// empty otherwise.
pub open spec fn user_of(o: Option<Json>) -> Seq<char> {
    match o {
        Some(u) => match u.text() {
            Some(t) => t,
            None => text_or(u.field("login"@), Seq::empty()),
        },
        None => Seq::empty(),
    }
}

/// The issue that a JSON record describes. `number` (an integer within
/// `i32`) and `title` (a string) are required; the other fields default:
/// no body, state "open", no labels, empty user and times, and an address
/// built from the repository's.
pub open spec fn issue_of(v: Json, repo_url: Seq<char>) -> Option<IssueView> {
    match opt_int(v.field("number"@)) {
        None => None,
        Some(n) => if n < i32::MIN || n > i32::MAX {
            None
        } else {
            match opt_text(v.field("title"@)) {
                None => None,
                Some(title) => Some(
                    IssueView {
                        number: n as i32,
                        title,
                        body: opt_text(v.field("body"@)),
                        state: text_or(v.field("state"@), "open"@),
                        labels: labels_of(v.field("labels"@)),
                        user: user_of(v.field("user"@)),
                        html_url: match opt_text(v.field("html_url"@)) {
                            Some(u) => u,
                            None => issue_url(repo_url, n as int),
                        },
                        created_at: text_or(v.field("created_at"@), Seq::empty()),
                        updated_at: text_or(v.field("updated_at"@), Seq::empty()),
                    },
                ),
            }
        },
    }
}

/// Reads an issue record.
pub open spec fn issue_reader(repo_url: Seq<char>) -> spec_fn(Json) -> Option<IssueView> {
    |v: Json| issue_of(v, repo_url)
}

/// The issues of an array of records; records without a valid number or
/// title are dropped.
pub open spec fn issues_in(a: Seq<Json>, repo_url: Seq<char>) -> Seq<IssueView> {
    filter_map(a, issue_reader(repo_url))
}

/// The content of an optional issue.
pub open spec fn issue_opt_view(r: Option<Issue>) -> Option<IssueView> {
    match r {
        Some(i) => Some(i@),
        None => None,
    }
}

/// The names of the labels in `arr`.
fn label_names(arr: &Vec<Json>) -> (r: Vec<String>)
    ensures
        texts(r@) == filter_map(arr@, label_reader()),
{
    let mut out: Vec<String> = Vec::new();
    let mut i: usize = 0;
    while i < arr.len()
        invariant
            0 <= i <= arr@.len(),
            texts(out@) == filter_map(arr@.subrange(0, i as int), label_reader()),
        decreases arr@.len() - i,
    {
        proof {
            lemma_filter_map_step(arr@, i as int, label_reader());
        }
        let l = &arr[i];
        match l.as_str() {
            Some(s) => {
                let ghost before = out@;
                out.push(s.clone());
                assert(texts(out@) =~= texts(before).push(s@));
            },
            None => match text_at(l, "name") {
                Some(s) => {
                    let ghost before = out@;
                    out.push(s);
                    assert(texts(out@) =~= texts(before).push(s@));
                },
                None => {},
            },
        }
        i += 1;
    }
    assert(arr@.subrange(0, arr@.len() as int) =~= arr@);
    out
}

/// The login of an optional user value.
fn user_login(o: Option<&Json>) -> (r: String)
    ensures
        r@ == user_of(crate::json::deref_opt(o)),
{
    match o {
        Some(u) => match u.as_str() {
            Some(s) => s.clone(),
            None => match text_at(u, "login") {
                Some(s) => s,
                None => String::new(),
            },
        },
        None => String::new(),
    }
}

/// Reads one issue record; `None` when `number` or `title` is missing or
/// of the wrong type.
pub fn parse_issue(value: &Json, repo_url: &str, platform: Platform) -> (r: Option<Issue>)
    ensures
        issue_opt_view(r) == issue_of(*value, repo_url@),
{
    proof {
        reveal_strlit("");
    }
    let number_i64 = match value.get("number") {
        Some(n) => match n.as_i64() {
            Some(x) => x,
            None => return None,
        },
        None => return None,
    };
    if number_i64 < i32::MIN as i64 || number_i64 > i32::MAX as i64 {
        return None;
    }
    let number = number_i64 as i32;
    let title = match text_at(value, "title") {
        Some(t) => t,
        None => return None,
    };
    let body = text_at(value, "body");
    let state = text_at_or(value, "state", "open");
    let labels = match items_at(value, "labels") {
        Some(a) => label_names(a),
        None => Vec::new(),
    };
    assert(texts(labels@) == labels_of(value.field("labels"@)));
    let user = user_login(value.get("user"));
    let html_url = match text_at(value, "html_url") {
        Some(u) => u,
        None => build_issue_url(repo_url, number, platform),
    };
    let created_at = text_at_or(value, "created_at", "");
    let updated_at = text_at_or(value, "updated_at", "");
    let r = Issue { number, title, body, state, labels, user, html_url, created_at, updated_at };
    assert(opt_int(value.field("number"@)) == Some(number_i64));
    assert(user@ == user_of(value.field("user"@)));
    assert(html_url@ == (match opt_text(value.field("html_url"@)) {
        Some(u) => u,
        None => issue_url(repo_url@, number as int),
    }));
    assert(opt_text(value.field("title"@)) == Some(title@));
    assert(r@.labels == labels_of(value.field("labels"@)));
    assert(!(number_i64 < i32::MIN || number_i64 > i32::MAX));
    assert(r@.body == opt_text(value.field("body"@)));
    assert(r@.state == text_or(value.field("state"@), "open"@));
    assert(r@.created_at == text_or(value.field("created_at"@), Seq::empty()));
    assert(r@.updated_at == text_or(value.field("updated_at"@), Seq::empty()));
    assert(issue_of(*value, repo_url@) == Some(r@));
    Some(r)
}

/// The issues of an array of records, dropping the records that do not read.
fn issues_from_array(arr: &Vec<Json>, repo_url: &str, platform: Platform) -> (r: Vec<Issue>)
    ensures
        issue_views(r@) == issues_in(arr@, repo_url@),
{
    let mut out: Vec<Issue> = Vec::new();
    let mut i: usize = 0;
    while i < arr.len()
        invariant
            0 <= i <= arr@.len(),
            issue_views(out@) == filter_map(arr@.subrange(0, i as int), issue_reader(repo_url@)),
        decreases arr@.len() - i,
    {
        proof {
            lemma_filter_map_step(arr@, i as int, issue_reader(repo_url@));
        }
        match parse_issue(&arr[i], repo_url, platform) {
            Some(x) => {
                let ghost before = out@;
                out.push(x);
                assert(issue_views(out@) =~= issue_views(before).push(x@));
            },
            None => {},
        }
        i += 1;
    }
    assert(arr@.subrange(0, arr@.len() as int) =~= arr@);
    out
}

/// The text carried by an item of a tool-result envelope: either
/// `{"text": "..."}` or `{"text": {"text": "..."}}`.
pub open spec fn envelope_text(item: Json) -> Option<Seq<char>> {
    match item.field("text"@) {
        Some(t) => match opt_text(t.field("text"@)) {
            Some(s) => Some(s),
            None => t.text(),
        },
        None => None,
    }
}

/// The text of an envelope item.
pub fn envelope_text_of(item: &Json) -> (r: Option<&String>)
    ensures
        match r {
            Some(s) => envelope_text(*item) == Some(s@),
            None => envelope_text(*item) is None,
        },
{
    match item.get("text") {
        Some(t) => match t.get("text") {
            Some(inner) => match inner.as_str() {
                Some(s) => Some(s),
                None => t.as_str(),
            },
            None => t.as_str(),
        },
        None => None,
    }
}

/// The issues that the JSON text of an envelope holds, when it parses to an
/// object with an `issues` array or to an array.
pub open spec fn issues_in_text(text: Seq<char>, repo_url: Seq<char>) -> Option<Seq<IssueView>> {
    match json_from_text(text) {
        Some(p) => match opt_items(p.field("issues"@)) {
            Some(a) => Some(issues_in(a, repo_url)),
            None => match p.items() {
                Some(a) => Some(issues_in(a, repo_url)),
                None => None,
            },
        },
        None => None,
    }
}

/// The issues of the first envelope item whose text holds any.
pub open spec fn issues_in_content(items: Seq<Json>, repo_url: Seq<char>) -> Option<
    Seq<IssueView>,
>
    decreases items.len(),
{
    if items.len() == 0 {
        None
    } else {
        let here = match envelope_text(items[0]) {
            Some(t) => issues_in_text(t, repo_url),
            None => None,
        };
        match here {
            Some(r) => Some(r),
            None => issues_in_content(items.drop_first(), repo_url),
        }
    }
}

/// The issues of a tool result, trying in turn: an `issues` array, an
/// envelope whose text holds issues, a bare array, and a single record.
/// A result of none of these shapes holds no issue.
pub open spec fn issues_of_result(result: Json, repo_url: Seq<char>) -> Seq<IssueView> {
    match opt_items(result.field("issues"@)) {
        Some(a) => issues_in(a, repo_url),
        None => {
            let from_content = match opt_items(result.field("content"@)) {
                Some(c) => issues_in_content(c, repo_url),
                None => None,
            };
            match from_content {
                Some(r) => r,
                None => match result.items() {
                    Some(a) => issues_in(a, repo_url),
                    None => if result.field("number"@) is Some {
                        match issue_of(result, repo_url) {
                            Some(i) => seq![i],
                            None => Seq::empty(),
                        }
                    } else {
                        Seq::empty()
                    },
                },
            }
        },
    }
}

/// The issues of the first envelope item whose text holds any.
fn issues_from_content(content: &Vec<Json>, repo_url: &str, platform: Platform) -> (r: Option<
    Vec<Issue>,
>)
    ensures
        match r {
            Some(v) => issues_in_content(content@, repo_url@) == Some(issue_views(v@)),
            None => issues_in_content(content@, repo_url@) is None,
        },
{
    let mut k: usize = 0;
    proof {
        assert(content@.subrange(0, content@.len() as int) =~= content@);
    }
    while k < content.len()
        invariant
            0 <= k <= content@.len(),
            issues_in_content(content@, repo_url@) == issues_in_content(
                content@.subrange(k as int, content@.len() as int),
                repo_url@,
            ),
        decreases content@.len() - k,
    {
        proof {
            let rest = content@.subrange(k as int, content@.len() as int);
            assert(rest.drop_first() =~= content@.subrange(k + 1, content@.len() as int));
            assert(rest[0] == content@[k as int]);
        }
        match envelope_text_of(&content[k]) {
            Some(text) => match parse_json_text(text.as_str()) {
                Some(parsed) => {
                    match items_at(&parsed, "issues") {
                        Some(a) => {
                            return Some(issues_from_array(a, repo_url, platform));
                        },
                        None => {},
                    }
                    match parsed.as_array() {
                        Some(a) => {
                            return Some(issues_from_array(a, repo_url, platform));
                        },
                        None => {},
                    }
                },
                None => {},
            },
            None => {},
        }
        k += 1;
    }
    None
}

/// Reads the issues of a tool result, whatever its shape (see
/// [`issues_of_result`]); never fails, as no data is not an error.
pub fn extract_issues_from_result(result: &Json, repo_url: &str, platform: Platform) -> (r: Vec<
    Issue,
>)
    ensures
        issue_views(r@) == issues_of_result(*result, repo_url@),
{
    match items_at(result, "issues") {
        Some(a) => {
            return issues_from_array(a, repo_url, platform);
        },
        None => {},
    }
    match items_at(result, "content") {
        Some(c) => match issues_from_content(c, repo_url, platform) {
            Some(v) => {
                return v;
            },
            None => {},
        },
        None => {},
    }
    match result.as_array() {
        Some(a) => {
            return issues_from_array(a, repo_url, platform);
        },
        None => {},
    }
    if result.get("number").is_some() {
        match parse_issue(result, repo_url, platform) {
            Some(i) => {
                let ghost iv = i@;
                let v = vec![i];
                assert(issue_views(v@) =~= seq![iv]);
                return v;
            },
            None => {},
        }
    }
    Vec::new()
}

// ---------------------------------------------------------------------------
// Reading one issue
// ---------------------------------------------------------------------------

/// The issue of the first envelope item whose text parses to an issue record.
pub open spec fn issue_in_content(items: Seq<Json>, repo_url: Seq<char>) -> Option<IssueView>
    decreases items.len(),
{
    if items.len() == 0 {
        None
    } else {
        let here = match envelope_text(items[0]) {
            Some(t) => match json_from_text(t) {
                Some(p) => issue_of(p, repo_url),
                None => None,
            },
            None => None,
        };
        match here {
            Some(r) => Some(r),
            None => issue_in_content(items.drop_first(), repo_url),
        }
    }
}

/// The issue that a read tool returned: first from an envelope, then from
/// the result itself as one record.
pub open spec fn issue_of_read_result(result: Json, repo_url: Seq<char>) -> Option<IssueView> {
    let from_content = match opt_items(result.field("content"@)) {
        Some(c) => issue_in_content(c, repo_url),
        None => None,
    };
    match from_content {
        Some(i) => Some(i),
        None => issue_of(result, repo_url),
    }
}

/// The issue of the first envelope item that holds one.
fn issue_from_content(content: &Vec<Json>, repo_url: &str, platform: Platform) -> (r: Option<
    Issue,
>)
    ensures
        issue_opt_view(r) == issue_in_content(content@, repo_url@),
{
    let mut k: usize = 0;
    proof {
        assert(content@.subrange(0, content@.len() as int) =~= content@);
    }
    while k < content.len()
        invariant
            0 <= k <= content@.len(),
            issue_in_content(content@, repo_url@) == issue_in_content(
                content@.subrange(k as int, content@.len() as int),
                repo_url@,
            ),
        decreases content@.len() - k,
    {
        proof {
            let rest = content@.subrange(k as int, content@.len() as int);
            assert(rest.drop_first() =~= content@.subrange(k + 1, content@.len() as int));
            assert(rest[0] == content@[k as int]);
        }
        match envelope_text_of(&content[k]) {
            Some(text) => match parse_json_text(text.as_str()) {
                Some(parsed) => match parse_issue(&parsed, repo_url, platform) {
                    Some(i) => {
                        return Some(i);
                    },
                    None => {},
                },
                None => {},
            },
            None => {},
        }
        k += 1;
    }
    None
}

/// The text of the error for an issue that a read did not return.
pub open spec fn issue_not_found_text(issue_number: int) -> Seq<char> {
    "Issue #"@ + decimal(issue_number) + " not found"@
}

/// Reads the issue that a read tool returned; NotFound when neither an
/// envelope nor the result itself holds an issue record.
pub fn issue_from_read_result(
    result: &Json,
    repo_url: &str,
    platform: Platform,
    issue_number: i32,
) -> (r: Result<Issue, AppError>)
    ensures
        match r {
            Ok(i) => issue_of_read_result(*result, repo_url@) == Some(i@),
            Err(e) => issue_of_read_result(*result, repo_url@) is None && (e matches AppError::NotFound(
                m,
            ) && m@ == issue_not_found_text(issue_number as int)),
        },
{
    match items_at(result, "content") {
        Some(c) => match issue_from_content(c, repo_url, platform) {
            Some(i) => {
                return Ok(i);
            },
            None => {},
        },
        None => {},
    }
    match parse_issue(result, repo_url, platform) {
        Some(i) => Ok(i),
        None => {
            let n = decimal_text(issue_number as i64);
            Err(AppError::NotFound(concat3("Issue #", n.as_str(), " not found")))
        },
    }
}

// ---------------------------------------------------------------------------
// Reading comments
// ---------------------------------------------------------------------------

/// The comment that a JSON record describes. `id` (an integer) and `body`
/// (a string) are required; the user and times default to empty.
pub open spec fn comment_of(v: Json) -> Option<CommentView> {
    match opt_int(v.field("id"@)) {
        None => None,
        Some(id) => match opt_text(v.field("body"@)) {
            None => None,
            Some(body) => Some(
                CommentView {
                    id,
                    user: user_of(v.field("user"@)),
                    body,
                    created_at: text_or(v.field("created_at"@), Seq::empty()),
                    updated_at: text_or(v.field("updated_at"@), Seq::empty()),
                },
            ),
        },
    }
}

/// Reads a comment record.
pub open spec fn comment_reader() -> spec_fn(Json) -> Option<CommentView> {
    |v: Json| comment_of(v)
}

/// The comments of an array of records; records without a valid id or body
/// are dropped.
pub open spec fn comments_in(a: Seq<Json>) -> Seq<CommentView> {
    filter_map(a, comment_reader())
}

/// The content of an optional comment.
pub open spec fn comment_opt_view(r: Option<IssueComment>) -> Option<CommentView> {
    match r {
        Some(c) => Some(c@),
        None => None,
    }
}

/// Reads one comment record; `None` when `id` or `body` is missing or of
/// the wrong type.
pub fn parse_comment(value: &Json) -> (r: Option<IssueComment>)
    ensures
        comment_opt_view(r) == comment_of(*value),
{
    proof {
        reveal_strlit("");
    }
    let id = match value.get("id") {
        Some(n) => match n.as_i64() {
            Some(x) => x,
            None => return None,
        },
        None => return None,
    };
    let body = match text_at(value, "body") {
        Some(b) => b,
        None => return None,
    };
    let user = user_login(value.get("user"));
    let created_at = text_at_or(value, "created_at", "");
    let updated_at = text_at_or(value, "updated_at", "");
    let r = IssueComment { id, user, body, created_at, updated_at };
    assert(r@.created_at == text_or(value.field("created_at"@), Seq::empty()));
    assert(r@.updated_at == text_or(value.field("updated_at"@), Seq::empty()));
    assert(comment_of(*value) == Some(r@));
    Some(r)
}

/// The comments of an array of records, dropping those that do not read.
fn comments_from_array(arr: &Vec<Json>) -> (r: Vec<IssueComment>)
    ensures
        comment_views(r@) == comments_in(arr@),
{
    let mut out: Vec<IssueComment> = Vec::new();
    let mut i: usize = 0;
    while i < arr.len()
        invariant
            0 <= i <= arr@.len(),
            comment_views(out@) == filter_map(arr@.subrange(0, i as int), comment_reader()),
        decreases arr@.len() - i,
    {
        proof {
            lemma_filter_map_step(arr@, i as int, comment_reader());
        }
        match parse_comment(&arr[i]) {
            Some(x) => {
                let ghost before = out@;
                out.push(x);
                assert(comment_views(out@) =~= comment_views(before).push(x@));
            },
            None => {},
        }
        i += 1;
    }
    assert(arr@.subrange(0, arr@.len() as int) =~= arr@);
    out
}

/// The comments that the JSON text of an envelope holds, when it parses to
/// an object with a `comments` array or to an array.
pub open spec fn comments_in_text(text: Seq<char>) -> Option<Seq<CommentView>> {
    match json_from_text(text) {
        Some(p) => match opt_items(p.field("comments"@)) {
            Some(a) => Some(comments_in(a)),
            None => match p.items() {
                Some(a) => Some(comments_in(a)),
                None => None,
            },
        },
        None => None,
    }
}

/// The comments of the first envelope item whose text holds any.
pub open spec fn comments_in_content(items: Seq<Json>) -> Option<Seq<CommentView>>
    decreases items.len(),
{
    if items.len() == 0 {
        None
    } else {
        let here = match envelope_text(items[0]) {
            Some(t) => comments_in_text(t),
            None => None,
        };
        match here {
            Some(r) => Some(r),
            None => comments_in_content(items.drop_first()),
        }
    }
}

/// The comments of a tool result, trying in turn: a `comments` array, an
/// envelope whose text holds comments, and a bare array. A result of none
/// of these shapes holds no comment.
pub open spec fn comments_of_result(result: Json) -> Seq<CommentView> {
    match opt_items(result.field("comments"@)) {
        Some(a) => comments_in(a),
        None => {
            let from_content = match opt_items(result.field("content"@)) {
                Some(c) => comments_in_content(c),
                None => None,
            };
            match from_content {
                Some(r) => r,
                None => match result.items() {
                    Some(a) => comments_in(a),
                    None => Seq::empty(),
                },
            }
        },
    }
}

/// The comments of the first envelope item whose text holds any.
fn comments_from_content(content: &Vec<Json>) -> (r: Option<Vec<IssueComment>>)
    ensures
        match r {
            Some(v) => comments_in_content(content@) == Some(comment_views(v@)),
            None => comments_in_content(content@) is None,
        },
{
    let mut k: usize = 0;
    proof {
        assert(content@.subrange(0, content@.len() as int) =~= content@);
    }
    while k < content.len()
        invariant
            0 <= k <= content@.len(),
            comments_in_content(content@) == comments_in_content(
                content@.subrange(k as int, content@.len() as int),
            ),
        decreases content@.len() - k,
    {
        proof {
            let rest = content@.subrange(k as int, content@.len() as int);
            assert(rest.drop_first() =~= content@.subrange(k + 1, content@.len() as int));
            assert(rest[0] == content@[k as int]);
        }
        match envelope_text_of(&content[k]) {
            Some(text) => match parse_json_text(text.as_str()) {
                Some(parsed) => {
                    match items_at(&parsed, "comments") {
                        Some(a) => {
                            return Some(comments_from_array(a));
                        },
                        None => {},
                    }
                    match parsed.as_array() {
                        Some(a) => {
                            return Some(comments_from_array(a));
                        },
                        None => {},
                    }
                },
                None => {},
            },
            None => {},
        }
        k += 1;
    }
    None
}

/// Reads the comments of a tool result, whatever its shape (see
/// [`comments_of_result`]); never fails.
pub fn extract_comments_from_result(result: &Json) -> (r: Vec<IssueComment>)
    ensures
        comment_views(r@) == comments_of_result(*result),
{
    match items_at(result, "comments") {
        Some(a) => {
            return comments_from_array(a);
        },
        None => {},
    }
    match items_at(result, "content") {
        Some(c) => match comments_from_content(c) {
            Some(v) => {
                return v;
            },
            None => {},
        },
        None => {},
    }
    match result.as_array() {
        Some(a) => comments_from_array(a),
        None => Vec::new(),
    }
}

// ---------------------------------------------------------------------------
// Laws of the issue extraction
// ---------------------------------------------------------------------------

/// The issues read from a result do not depend on the shape that carries
/// the records: an object with an `issues` array, a bare array, and an
/// envelope whose first item's text parses to either of these all yield the
/// issues of the same records.
pub proof fn lemma_issue_shapes_agree(
    records: Seq<Json>,
    wrapped: Json,
    bare: Json,
    enveloped: Json,
    text: Seq<char>,
    inner: Json,
    repo_url: Seq<char>,
)
    requires
        opt_items(wrapped.field("issues"@)) == Some(records),
        bare.items() == Some(records),
        opt_items(enveloped.field("issues"@)) is None,
        opt_items(enveloped.field("content"@)) matches Some(c) && c.len() > 0 && envelope_text(c[0])
            == Some(text),
        json_from_text(text) == Some(inner),
        inner.items() == Some(records) || opt_items(inner.field("issues"@)) == Some(records),
    ensures
        issues_of_result(wrapped, repo_url) == issues_in(records, repo_url),
        issues_of_result(bare, repo_url) == issues_in(records, repo_url),
        issues_of_result(enveloped, repo_url) == issues_in(records, repo_url),
{
    let c = opt_items(enveloped.field("content"@)).unwrap();
    assert(issues_in_text(text, repo_url) == Some(issues_in(records, repo_url)));
    assert(issues_in_content(c, repo_url) == Some(issues_in(records, repo_url)));
}

/// A single issue record given on its own reads as the one-element array
/// holding it.
pub proof fn lemma_single_issue_shape(record: Json, repo_url: Seq<char>)
    requires
        opt_items(record.field("issues"@)) is None,
        opt_items(record.field("content"@)) is None,
        issue_of(record, repo_url) is Some,
    ensures
        issues_of_result(record, repo_url) == issues_in(seq![record], repo_url),
{
    let i = issue_of(record, repo_url).unwrap();
    assert(record is Object);
    assert(seq![record].drop_last() =~= Seq::<Json>::empty());
    assert(seq![record].last() == record);
    assert(filter_map(Seq::<Json>::empty(), issue_reader(repo_url)) == Seq::<IssueView>::empty());
    assert(Seq::<IssueView>::empty().push(i) =~= seq![i]);
}

/// A record without an integer `number` within `i32` or without a string
/// `title` yields no issue, and adding it to a batch leaves the batch's
/// issues as they were.
pub proof fn lemma_issue_missing_required_dropped(records: Seq<Json>, bad: Json, repo_url: Seq<char>)
    requires
        opt_int(bad.field("number"@)) matches Some(n) ==> (n < i32::MIN || n > i32::MAX)
            || opt_text(bad.field("title"@)) is None,
    ensures
        issue_of(bad, repo_url) is None,
        issues_in(records.push(bad), repo_url) == issues_in(records, repo_url),
{
    crate::json::lemma_filter_map_push(records, bad, issue_reader(repo_url));
}

/// A record with a valid `number` and `title`, whose other fields are
/// missing or of another type, reads with the defaults: no body, state
/// "open", no labels, empty user and times, and an address built from the
/// repository's; and it is kept in a batch.
pub proof fn lemma_issue_defaults(records: Seq<Json>, v: Json, repo_url: Seq<char>, n: i64, title: Seq<char>)
    requires
        opt_int(v.field("number"@)) == Some(n),
        i32::MIN <= n <= i32::MAX,
        opt_text(v.field("title"@)) == Some(title),
        opt_text(v.field("body"@)) is None,
        opt_text(v.field("state"@)) is None,
        opt_items(v.field("labels"@)) is None,
        v.field("user"@) matches Some(u) ==> u.text() is None && opt_text(u.field("login"@)) is None,
        opt_text(v.field("html_url"@)) is None,
        opt_text(v.field("created_at"@)) is None,
        opt_text(v.field("updated_at"@)) is None,
    ensures
        issue_of(v, repo_url) == Some(
            IssueView {
                number: n as i32,
                title,
                body: None,
                state: "open"@,
                labels: Seq::empty(),
                user: Seq::empty(),
                html_url: issue_url(repo_url, n as int),
                created_at: Seq::empty(),
                updated_at: Seq::empty(),
            },
        ),
        issues_in(records.push(v), repo_url) == issues_in(records, repo_url).push(
            issue_of(v, repo_url).unwrap(),
        ),
{
    crate::json::lemma_filter_map_push(records, v, issue_reader(repo_url));
}

/// The comments read from a result do not depend on the shape that carries
/// the records: an object with a `comments` array, a bare array, and an
/// envelope whose first item's text parses to either of these all yield the
/// comments of the same records.
pub proof fn lemma_comment_shapes_agree(
    records: Seq<Json>,
    wrapped: Json,
    bare: Json,
    enveloped: Json,
    text: Seq<char>,
    inner: Json,
)
    requires
        opt_items(wrapped.field("comments"@)) == Some(records),
        bare.items() == Some(records),
        opt_items(enveloped.field("comments"@)) is None,
        opt_items(enveloped.field("content"@)) matches Some(c) && c.len() > 0 && envelope_text(c[0])
            == Some(text),
        json_from_text(text) == Some(inner),
        inner.items() == Some(records) || opt_items(inner.field("comments"@)) == Some(records),
    ensures
        comments_of_result(wrapped) == comments_in(records),
        comments_of_result(bare) == comments_in(records),
        comments_of_result(enveloped) == comments_in(records),
{
    let c = opt_items(enveloped.field("content"@)).unwrap();
    assert(comments_in_text(text) == Some(comments_in(records)));
    assert(comments_in_content(c) == Some(comments_in(records)));
}

/// A record without an integer `id` or a string `body` yields no comment,
/// and adding it to a batch leaves the batch's comments as they were.
pub proof fn lemma_comment_missing_required_dropped(records: Seq<Json>, bad: Json)
    requires
        opt_int(bad.field("id"@)) is None || opt_text(bad.field("body"@)) is None,
    ensures
        comment_of(bad) is None,
        comments_in(records.push(bad)) == comments_in(records),
{
    crate::json::lemma_filter_map_push(records, bad, comment_reader());
}

} // verus!
