//! Pull requests: the listing tool and its arguments, the records read back
//! from a tool result, and which of them refer to a given issue.
use vstd::prelude::*;
use crate::issues::{envelope_text, envelope_text_of, text_member, text_pair};
use crate::json::{
    Json, filter_map, items_at, json_from_text, lemma_filter_map_step, opt_bool, opt_int,
    opt_items, opt_text, opt_view, parse_json_text, text_at, text_at_or, text_or,
};
use crate::models::{Platform, Repository};
use crate::text::{
    concat2, contains_text, decimal, decimal_text, ends_with_text, has_substring, has_suffix,
};

verus! {

/// A pull request as the interface shows it.
#[derive(Clone, Debug)]
pub struct PullRequest {
    pub number: i32,
    pub title: String,
    pub body: Option<String>,
    pub state: String,
    pub head_branch: Option<String>,
    pub base_branch: Option<String>,
    pub html_url: String,
    pub merged: bool,
    pub created_at: String,
    pub updated_at: String,
}

/// The content of a [`PullRequest`].
pub struct PullView {
    pub number: i32,
    pub title: Seq<char>,
    pub body: Option<Seq<char>>,
    pub state: Seq<char>,
    pub head_branch: Option<Seq<char>>,
    pub base_branch: Option<Seq<char>>,
    pub html_url: Seq<char>,
    pub merged: bool,
    pub created_at: Seq<char>,
    pub updated_at: Seq<char>,
}

impl View for PullRequest {
    type V = PullView;

    open spec fn view(&self) -> PullView {
        PullView {
            number: self.number,
            title: self.title@,
            body: opt_view(self.body),
            state: self.state@,
            head_branch: opt_view(self.head_branch),
            base_branch: opt_view(self.base_branch),
            html_url: self.html_url@,
            merged: self.merged,
            created_at: self.created_at@,
            updated_at: self.updated_at@,
        }
    }
}

/// The contents of a list of pull requests.
pub open spec fn pull_views(v: Seq<PullRequest>) -> Seq<PullView> {
    v.map_values(|p: PullRequest| p@)
}

/// The content of an optional pull request.
pub open spec fn pull_opt_view(r: Option<PullRequest>) -> Option<PullView> {
    match r {
        Some(p) => Some(p@),
        None => None,
    }
}

/// The tool that lists pull requests on `platform`.
pub fn get_list_pulls_tool(platform: Platform) -> (r: &'static str)
    ensures
        r@ == match platform {
            Platform::GitHub => "list_pull_requests"@,
            Platform::Gitea => "list_repo_pull_requests"@,
        },
{
    match platform {
        Platform::GitHub => "list_pull_requests",
        Platform::Gitea => "list_repo_pull_requests",
    }
}

/// Builds the arguments for listing pull requests: owner, repo and state,
/// which defaults to "open".
pub fn list_pulls_args(repo: &Repository, state: Option<String>) -> (r: Json)
    ensures
        r matches Json::Object(f) && f@.len() == 3 && text_member(f@[0], "owner"@, repo.owner@)
            && text_member(f@[1], "repo"@, repo.repo_name@) && text_member(
            f@[2],
            "state"@,
            match state {
                Some(s) => s@,
                None => "open"@,
            },
        ),
{
    let state_str = match state {
        Some(s) => s,
        None => String::from_str("open"),
    };
    let mut fields: Vec<(String, Json)> = Vec::new();
    fields.push(text_pair("owner", repo.owner.as_str()));
    fields.push(text_pair("repo", repo.repo_name.as_str()));
    fields.push(text_pair("state", state_str.as_str()));
    Json::Object(fields)
}

/// The string at `outer.ref`, if any.
pub open spec fn ref_of(o: Option<Json>) -> Option<Seq<char>> {
    match o {
        Some(h) => opt_text(h.field("ref"@)),
        None => None,
    }
}

/// A branch given as `<outer>.ref`, or else as the member `flat`.
pub open spec fn branch_of(v: Json, outer: Seq<char>, flat: Seq<char>) -> Option<Seq<char>> {
    match ref_of(v.field(outer)) {
        Some(r) => Some(r),
        None => opt_text(v.field(flat)),
    }
}

/// Whether a pull request was merged: the `merged` boolean, or else whether
/// a `merged_at` member is present and not null.
pub open spec fn merged_of(v: Json) -> bool {
    match opt_bool(v.field("merged"@)) {
        Some(b) => b,
        None => match v.field("merged_at"@) {
            Some(m) => !(m is Null),
            None => false,
        },
    }
}

/// The pull request that a JSON record describes. `number` (an integer
/// within `i32`) and `title` (a string) are required; the other fields
/// default: no body or branches, state "open", empty address and times,
/// not merged.
pub open spec fn pull_of(v: Json) -> Option<PullView> {
    match opt_int(v.field("number"@)) {
        None => None,
        Some(n) => if n < i32::MIN || n > i32::MAX {
            None
        } else {
            match opt_text(v.field("title"@)) {
                None => None,
                Some(title) => Some(
                    PullView {
                        number: n as i32,
                        title,
                        body: opt_text(v.field("body"@)),
                        state: text_or(v.field("state"@), "open"@),
                        head_branch: branch_of(v, "head"@, "head_branch"@),
                        base_branch: branch_of(v, "base"@, "base_branch"@),
                        html_url: text_or(v.field("html_url"@), Seq::empty()),
                        merged: merged_of(v),
                        created_at: text_or(v.field("created_at"@), Seq::empty()),
                        updated_at: text_or(v.field("updated_at"@), Seq::empty()),
                    },
                ),
            }
        },
    }
}

/// Reads a pull request record.
pub open spec fn pull_reader() -> spec_fn(Json) -> Option<PullView> {
    |v: Json| pull_of(v)
}

/// The pull requests of an array of records; records without a valid
/// number or title are dropped.
pub open spec fn pulls_in(a: Seq<Json>) -> Seq<PullView> {
    filter_map(a, pull_reader())
}

/// A branch given as `<outer>.ref`, or else as the member `flat`.
fn branch_at(value: &Json, outer: &str, flat: &str) -> (r: Option<String>)
    ensures
        opt_view(r) == branch_of(*value, outer@, flat@),
{
    match value.get(outer) {
        Some(h) => match text_at(h, "ref") {
            Some(r) => {
                return Some(r);
            },
            None => {},
        },
        None => {},
    }
    text_at(value, flat)
}

/// Reads one pull request record; `None` when `number` or `title` is
/// missing or of the wrong type.
pub fn parse_pull_request(value: &Json) -> (r: Option<PullRequest>)
    ensures
        pull_opt_view(r) == pull_of(*value),
{
    proof {
        reveal_strlit("");
    }
    let number_i64 = match value.get("number") {
        Some(n) => match n.as_i64() {
            Some(x) => x,
            None => return None,
        },
        None => return None,
    };
    if number_i64 < i32::MIN as i64 || number_i64 > i32::MAX as i64 {
        return None;
    }
    let number = number_i64 as i32;
    let title = match text_at(value, "title") {
        Some(t) => t,
        None => return None,
    };
    let body = text_at(value, "body");
    let state = text_at_or(value, "state", "open");
    let head_branch = branch_at(value, "head", "head_branch");
    let base_branch = branch_at(value, "base", "base_branch");
    let html_url = text_at_or(value, "html_url", "");
    let merged = match value.get("merged") {
        Some(m) => match m.as_bool() {
            Some(b) => b,
            None => match value.get("merged_at") {
                Some(x) => !x.is_null(),
                None => false,
            },
        },
        None => match value.get("merged_at") {
            Some(x) => !x.is_null(),
            None => false,
        },
    };
    let created_at = text_at_or(value, "created_at", "");
    let updated_at = text_at_or(value, "updated_at", "");
    let r = PullRequest {
        number,
        title,
        body,
        state,
        head_branch,
        base_branch,
        html_url,
        merged,
        created_at,
        updated_at,
    };
    assert(!(number_i64 < i32::MIN || number_i64 > i32::MAX));
    assert(r@.html_url == text_or(value.field("html_url"@), Seq::empty()));
    assert(r@.created_at == text_or(value.field("created_at"@), Seq::empty()));
    assert(r@.updated_at == text_or(value.field("updated_at"@), Seq::empty()));
    assert(r@.merged == merged_of(*value));
    assert(pull_of(*value) == Some(r@));
    Some(r)
}

/// The pull requests of an array of records, dropping those that do not read.
fn pulls_from_array(arr: &Vec<Json>) -> (r: Vec<PullRequest>)
    ensures
        pull_views(r@) == pulls_in(arr@),
{
    let mut out: Vec<PullRequest> = Vec::new();
    let mut i: usize = 0;
    while i < arr.len()
        invariant
            0 <= i <= arr@.len(),
            pull_views(out@) == filter_map(arr@.subrange(0, i as int), pull_reader()),
        decreases arr@.len() - i,
    {
        proof {
            lemma_filter_map_step(arr@, i as int, pull_reader());
        }
        match parse_pull_request(&arr[i]) {
            Some(x) => {
                let ghost before = out@;
                out.push(x);
                assert(pull_views(out@) =~= pull_views(before).push(x@));
            },
            None => {},
        }
        i += 1;
    }
    assert(arr@.subrange(0, arr@.len() as int) =~= arr@);
    out
}

/// The pull requests that an envelope item's text holds, when that text
/// (`{"text": "..."}` or `{"text": {"text": "..."}}`) parses to an array.
pub open spec fn pulls_in_item(item: Json) -> Option<Seq<PullView>> {
    match envelope_text(item) {
        Some(t) => match json_from_text(t) {
            Some(p) => match p.items() {
                Some(a) => Some(pulls_in(a)),
                None => None,
            },
            None => None,
        },
        None => None,
    }
}

/// The pull requests of the first envelope item that holds an array.
pub open spec fn pulls_in_content(items: Seq<Json>) -> Option<Seq<PullView>>
    decreases items.len(),
{
    if items.len() == 0 {
        None
    } else {
        match pulls_in_item(items[0]) {
            Some(r) => Some(r),
            None => pulls_in_content(items.drop_first()),
        }
    }
}

/// The pull requests of a tool result, trying in turn: an envelope whose
/// text is an array, a bare array, and a single record. A result of none
/// of these shapes holds no pull request.
pub open spec fn pulls_of_result(result: Json) -> Seq<PullView> {
    let from_content = match opt_items(result.field("content"@)) {
        Some(c) => pulls_in_content(c),
        None => None,
    };
    match from_content {
        Some(r) => r,
        None => match result.items() {
            Some(a) => pulls_in(a),
            None => if result.field("number"@) is Some {
                match pull_of(result) {
                    Some(p) => seq![p],
                    None => Seq::empty(),
                }
            } else {
                Seq::empty()
            },
        },
    }
}

/// The pull requests of the first envelope item that holds an array.
fn pulls_from_content(content: &Vec<Json>) -> (r: Option<Vec<PullRequest>>)
    ensures
        match r {
            Some(v) => pulls_in_content(content@) == Some(pull_views(v@)),
            None => pulls_in_content(content@) is None,
        },
{
    let mut k: usize = 0;
    proof {
        assert(content@.subrange(0, content@.len() as int) =~= content@);
    }
    while k < content.len()
        invariant
            0 <= k <= content@.len(),
            pulls_in_content(content@) == pulls_in_content(
                content@.subrange(k as int, content@.len() as int),
            ),
        decreases content@.len() - k,
    {
        proof {
            let rest = content@.subrange(k as int, content@.len() as int);
            assert(rest.drop_first() =~= content@.subrange(k + 1, content@.len() as int));
            assert(rest[0] == content@[k as int]);
        }
        match envelope_text_of(&content[k]) {
            Some(text) => match parse_json_text(text.as_str()) {
                Some(parsed) => match parsed.as_array() {
                    Some(a) => {
                        return Some(pulls_from_array(a));
                    },
                    None => {},
                },
                None => {},
            },
            None => {},
        }
        k += 1;
    }
    None
}

/// Reads the pull requests of a tool result, whatever its shape (see
/// [`pulls_of_result`]); never fails.
pub fn extract_pulls_from_result(result: &Json) -> (r: Vec<PullRequest>)
    ensures
        pull_views(r@) == pulls_of_result(*result),
{
    match items_at(result, "content") {
        Some(c) => match pulls_from_content(c) {
            Some(v) => {
                return v;
            },
            None => {},
        },
        None => {},
    }
    match result.as_array() {
        Some(a) => {
            return pulls_from_array(a);
        },
        None => {},
    }
    if result.get("number").is_some() {
        match parse_pull_request(result) {
            Some(p) => {
                let ghost pv = p@;
                let v = vec![p];
                assert(pull_views(v@) =~= seq![pv]);
                return v;
            },
            None => {},
        }
    }
    Vec::new()
}

// ---------------------------------------------------------------------------
// Pull requests that refer to an issue
// ---------------------------------------------------------------------------

/// What `regex` reports for `pattern` on `text`: `None` when the pattern
/// does not compile, else whether it matches somewhere in the text.
pub uninterp spec fn regex_search(pattern: Seq<char>, text: Seq<char>) -> Option<bool>;

/// Relies on regex::Regex::new, which compiles the pattern, and
/// Regex::is_match, which reports a match anywhere in the text; both depend
/// on the two texts alone.
#[verifier::external_body]
fn regex_find(pattern: &str, text: &str) -> (r: Option<bool>)
    ensures
        r == regex_search(pattern@, text@),
{
    regex::Regex::new(pattern).ok().map(|re| re.is_match(text))
}

/// The case-insensitive pattern of a mention of issue `n`: `#n`, or
/// `fixes`, `closes` or `resolves` followed by white space and `#n`.
pub open spec fn mention_pattern(n: Seq<char>) -> Seq<char> {
    "(?i)(#"@ + n + "|fixes\\s+#"@ + n + "|closes\\s+#"@ + n + "|resolves\\s+#"@ + n + ")"@
}

/// A branch name that refers to issue `n`.
pub open spec fn branch_refers(branch: Seq<char>, n: Seq<char>) -> bool {
    has_substring(branch, "issue-"@ + n) || has_substring(branch, "issue/"@ + n)
        || has_substring(branch, "fix-"@ + n) || has_substring(branch, "fix/"@ + n)
        || has_substring(branch, "feature/issue-"@ + n) || has_suffix(branch, "/"@ + n)
}

/// Whether a pull request refers to an issue, given whether its title and
/// its body mention it.
pub open spec fn related_given(pr: PullView, issue_number: i32, title_hit: bool, body_hit: bool) -> bool {
    title_hit || body_hit || match pr.head_branch {
        Some(b) => branch_refers(b, decimal(issue_number as int)),
        None => false,
    }
}

/// Whether a pull request refers to an issue: its title or body mentions
/// it, or its head branch is named after it.
pub open spec fn pr_related(pr: PullView, issue_number: i32) -> bool {
    let pattern = mention_pattern(decimal(issue_number as int));
    match regex_search(pattern, pr.title) {
        None => false,
        Some(title_hit) => related_given(
            pr,
            issue_number,
            title_hit,
            match pr.body {
                Some(b) => regex_search(pattern, b) == Some(true),
                None => false,
            },
        ),
    }
}

/// Whether `branch` is named after issue `n` (given as its decimal text).
fn branch_mentions(branch: &str, n: &str) -> (r: bool)
    ensures
        r == branch_refers(branch@, n@),
{
    let a = concat2("issue-", n);
    let b = concat2("issue/", n);
    let c = concat2("fix-", n);
    let d = concat2("fix/", n);
    let e = concat2("feature/issue-", n);
    let f = concat2("/", n);
    contains_text(branch, a.as_str()) || contains_text(branch, b.as_str()) || contains_text(
        branch,
        c.as_str(),
    ) || contains_text(branch, d.as_str()) || contains_text(branch, e.as_str())
        || ends_with_text(branch, f.as_str())
}

/// Decides whether a pull request refers to an issue from whether its title
/// and body mention it.
pub fn related_by_matches(pr: &PullRequest, issue_number: i32, title_hit: bool, body_hit: bool) -> (r: bool)
    ensures
        r == related_given(pr@, issue_number, title_hit, body_hit),
{
    if title_hit || body_hit {
        return true;
    }
    match &pr.head_branch {
        Some(branch) => {
            let n = decimal_text(issue_number as i64);
            branch_mentions(branch.as_str(), n.as_str())
        },
        None => false,
    }
}

/// Builds the mention pattern for issue `n`.
fn build_mention_pattern(n: &str) -> (r: String)
    ensures
        r@ == mention_pattern(n@),
{
    let mut p = String::from_str("(?i)(#");
    p.append(n);
    p.append("|fixes\\s+#");
    p.append(n);
    p.append("|closes\\s+#");
    p.append(n);
    p.append("|resolves\\s+#");
    p.append(n);
    p.append(")");
    p
}

/// Whether a pull request refers to an issue (see [`pr_related`]).
pub fn is_related_pr(pr: &PullRequest, issue_number: i32) -> (r: bool)
    ensures
        r == pr_related(pr@, issue_number),
{
    let n = decimal_text(issue_number as i64);
    let pattern = build_mention_pattern(n.as_str());
    let title_hit = match regex_find(pattern.as_str(), pr.title.as_str()) {
        Some(hit) => hit,
        None => return false,
    };
    let body_hit = match &pr.body {
        Some(b) => match regex_find(pattern.as_str(), b.as_str()) {
            Some(hit) => hit,
            None => false,
        },
        None => false,
    };
    related_by_matches(pr, issue_number, title_hit, body_hit)
}

/// Keeps a pull request that refers to the issue.
pub open spec fn related_reader(issue_number: i32) -> spec_fn(PullView) -> Option<PullView> {
    |p: PullView| if pr_related(p, issue_number) { Some(p) } else { None }
}

/// Keeps the pull requests that refer to an issue, in order.
pub fn filter_related_prs(prs: Vec<PullRequest>, issue_number: i32) -> (r: Vec<PullRequest>)
    ensures
        pull_views(r@) == filter_map(pull_views(prs@), related_reader(issue_number)),
{
    let ghost all = prs@;
    let total = prs.len();
    let mut rest = prs;
    let mut out: Vec<PullRequest> = Vec::new();
    let mut i: usize = 0;
    while rest.len() > 0
        invariant
            0 <= i <= all.len(),
            all.len() == total,
            rest@ == all.subrange(i as int, all.len() as int),
            pull_views(out@) == filter_map(
                pull_views(all).subrange(0, i as int),
                related_reader(issue_number),
            ),
        decreases rest@.len(),
    {
        proof {
            lemma_filter_map_step(pull_views(all), i as int, related_reader(issue_number));
            assert(pull_views(all).subrange(0, i as int + 1) =~= pull_views(all.subrange(0, i as int + 1)));
        }
        let p = rest.remove(0);
        assert(p == all[i as int]);
        assert(rest@ =~= all.subrange(i + 1, all.len() as int));
        if is_related_pr(&p, issue_number) {
            let ghost before = out@;
            out.push(p);
            assert(pull_views(out@) =~= pull_views(before).push(all[i as int]@));
        }
        i += 1;
    }
    assert(pull_views(all).subrange(0, all.len() as int) =~= pull_views(all));
    out
}

// ---------------------------------------------------------------------------
// Laws of the pull request extraction
// ---------------------------------------------------------------------------

/// The pull requests read from a result do not depend on the shape that
/// carries the records: a bare array and an envelope whose first item's
/// text parses to that array yield the same pull requests, and a single
/// record reads as the one-element array holding it.
pub proof fn lemma_pull_shapes_agree(
    records: Seq<Json>,
    bare: Json,
    enveloped: Json,
    text: Seq<char>,
    inner: Json,
    single: Json,
)
    requires
        bare.items() == Some(records),
        opt_items(bare.field("content"@)) is None,
        opt_items(enveloped.field("content"@)) matches Some(c) && c.len() > 0 && envelope_text(c[0])
            == Some(text),
        json_from_text(text) == Some(inner),
        inner.items() == Some(records),
        opt_items(single.field("content"@)) is None,
        pull_of(single) is Some,
    ensures
        pulls_of_result(bare) == pulls_in(records),
        pulls_of_result(enveloped) == pulls_in(records),
        pulls_of_result(single) == pulls_in(seq![single]),
{
    let c = opt_items(enveloped.field("content"@)).unwrap();
    assert(pulls_in_item(c[0]) == Some(pulls_in(records)));
    assert(pulls_in_content(c) == Some(pulls_in(records)));
    let p = pull_of(single).unwrap();
    assert(single is Object);
    assert(seq![single].drop_last() =~= Seq::<Json>::empty());
    assert(seq![single].last() == single);
    assert(filter_map(Seq::<Json>::empty(), pull_reader()) == Seq::<PullView>::empty());
    assert(Seq::<PullView>::empty().push(p) =~= seq![p]);
}

/// A record without an integer `number` within `i32` or without a string
/// `title` yields no pull request, and adding it to a batch leaves the
/// batch's pull requests as they were.
pub proof fn lemma_pull_missing_required_dropped(records: Seq<Json>, bad: Json)
    requires
        opt_int(bad.field("number"@)) matches Some(n) ==> (n < i32::MIN || n > i32::MAX)
            || opt_text(bad.field("title"@)) is None,
    ensures
        pull_of(bad) is None,
        pulls_in(records.push(bad)) == pulls_in(records),
{
    crate::json::lemma_filter_map_push(records, bad, pull_reader());
}

} // verus!
