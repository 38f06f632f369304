//! Runner definitions for the platforms' tool servers: validating what a
//! user gives, writing the definition text, and reading the access token
//! back out of a stored definition.
use vstd::prelude::*;
use crate::json::{Json, json_from_bytes, opt_items, opt_text, opt_view, parse_json_bytes};
use crate::models::{AppError, Platform};
use crate::text::{
    alphanumeric, concat2, concat3, ends_with_text, has_prefix, has_suffix, is_alphanumeric_char,
    starts_with_text, text_eq,
};

verus! {

/// A registered tool server, as the interface lists it.
#[derive(Clone, Debug)]
pub struct McpServerInfo {
    pub name: String,
    pub description: Option<String>,
    pub runner_type: String,
}

/// What the backend needs to register a runner.
#[derive(Clone, Debug)]
pub struct RunnerDefinition {
    pub name: String,
    pub description: String,
    pub definition: String,
}

// ---------------------------------------------------------------------------
// Validation
// ---------------------------------------------------------------------------

/// A character that could break out of a quoted definition value: a quote,
/// a backslash, or a control character (below U+0020, or U+007F).
pub open spec fn is_forbidden(c: char) -> bool {
    c == '"' || c == '\\' || (c as u32) < 0x20 || c == '\u{7f}'
}

/// `s` holds a character that may not stand in a definition value.
pub open spec fn has_forbidden(s: Seq<char>) -> bool {
    exists|i: int| 0 <= i < s.len() && is_forbidden(#[trigger] s[i])
}

/// The error text for a value with forbidden characters.
pub open spec fn forbidden_text(field_name: Seq<char>) -> Seq<char> {
    field_name
        + " contains invalid characters (quotes, backslashes, or control characters are not allowed)"@
}

/// Checks that `value` can be embedded in a definition: InvalidInput when it
/// holds a quote, a backslash, a line break, a tab or NUL.
pub fn validate_toml_value(value: &str, field_name: &str) -> (r: Result<(), AppError>)
    ensures
        match r {
            Ok(()) => !has_forbidden(value@),
            Err(e) => has_forbidden(value@) && (e matches AppError::InvalidInput(m) && m@
                == forbidden_text(field_name@)),
        },
{
    let n = value.unicode_len();
    let mut i: usize = 0;
    while i < n
        invariant
            n == value@.len(),
            0 <= i <= n,
            forall|k: int| 0 <= k < i ==> !is_forbidden(#[trigger] value@[k]),
        decreases n - i,
    {
        let c = value.get_char(i);
        if c == '"' || c == '\\' || (c as u32) < 0x20 || c == '\u{7f}' {
            assert(is_forbidden(value@[i as int]));
            return Err(
                AppError::InvalidInput(
                    concat2(
                        field_name,
                        " contains invalid characters (quotes, backslashes, or control characters are not allowed)",
                    ),
                ),
            );
        }
        i += 1;
    }
    Ok(())
}

/// A character allowed in a runner name.
pub open spec fn is_name_char(c: char) -> bool {
    alphanumeric(c) || c == '-' || c == '_'
}

/// The outcome of checking a runner name: empty, longer than 64
/// characters, or holding a character other than a letter, digit, hyphen
/// or underscore, in that order.
pub open spec fn runner_name_error(name: Seq<char>) -> Option<Seq<char>> {
    if name.len() == 0 {
        Some("Runner name cannot be empty"@)
    } else if name.len() > 64 {
        Some("Runner name must be 64 characters or less"@)
    } else if exists|i: int| 0 <= i < name.len() && !is_name_char(#[trigger] name[i]) {
        Some("Runner name can only contain alphanumeric characters, hyphens, and underscores"@)
    } else {
        None
    }
}

/// Checks a runner name (see [`runner_name_error`]).
pub fn validate_runner_name(name: &str) -> (r: Result<(), AppError>)
    ensures
        match r {
            Ok(()) => runner_name_error(name@) is None,
            Err(e) => runner_name_error(name@) matches Some(t) && (e matches AppError::InvalidInput(
                m,
            ) && m@ == t),
        },
{
    let n = name.unicode_len();
    if n == 0 {
        return Err(AppError::InvalidInput(String::from_str("Runner name cannot be empty")));
    }
    if n > 64 {
        return Err(
            AppError::InvalidInput(String::from_str("Runner name must be 64 characters or less")),
        );
    }
    let mut i: usize = 0;
    while i < n
        invariant
            n == name@.len(),
            0 < n <= 64,
            0 <= i <= n,
            forall|k: int| 0 <= k < i ==> is_name_char(#[trigger] name@[k]),
        decreases n - i,
    {
        let c = name.get_char(i);
        if !(is_alphanumeric_char(c) || c == '-' || c == '_') {
            assert(!is_name_char(name@[i as int]));
            assert(exists|j: int| 0 <= j < name@.len() && !is_name_char(#[trigger] name@[j]));
            assert(runner_name_error(name@) == Some(
                "Runner name can only contain alphanumeric characters, hyphens, and underscores"@,
            ));
            return Err(
                AppError::InvalidInput(
                    String::from_str(
                        "Runner name can only contain alphanumeric characters, hyphens, and underscores",
                    ),
                ),
            );
        }
        i += 1;
    }
    Ok(())
}

/// The first validation failure of a runner request: the name, then the
/// token, then the address.
pub open spec fn runner_request_error(name: Seq<char>, url: Seq<char>, token: Seq<char>) -> Option<
    Seq<char>,
> {
    match runner_name_error(name) {
        Some(t) => Some(t),
        None => if has_forbidden(token) {
            Some(forbidden_text("Token"@))
        } else if has_forbidden(url) {
            Some(forbidden_text("URL"@))
        } else {
            None
        },
    }
}

/// Checks what a user gave to register a runner, before anything is sent:
/// InvalidInput with the first failure (see [`runner_request_error`]).
pub fn validate_runner_request(name: &str, url: &str, token: &str) -> (r: Result<(), AppError>)
    ensures
        match r {
            Ok(()) => runner_request_error(name@, url@, token@) is None,
            Err(e) => runner_request_error(name@, url@, token@) matches Some(t) && (
            e matches AppError::InvalidInput(m) && m@ == t),
        },
{
    match validate_runner_name(name) {
        Ok(()) => {},
        Err(e) => {
            return Err(e);
        },
    }
    match validate_toml_value(token, "Token") {
        Ok(()) => {},
        Err(e) => {
            return Err(e);
        },
    }
    validate_toml_value(url, "URL")
}

// ---------------------------------------------------------------------------
// Definition text
// ---------------------------------------------------------------------------

/// What `url` reports for a text: the scheme and host of the address, or
/// the parser's error text.
pub uninterp spec fn url_parts(s: Seq<char>) -> Result<(Seq<char>, Option<Seq<char>>), Seq<char>>;

/// Relies on url::Url::parse, read through Url::scheme and Url::host_str:
/// the scheme and host of an absolute address, or the parser's error text;
/// all depend on the text alone.
#[verifier::external_body]
fn parse_url(s: &str) -> (r: Result<(String, Option<String>), String>)
    ensures
        match r {
            Ok(p) => url_parts(s@) == Ok::<(Seq<char>, Option<Seq<char>>), Seq<char>>(
                (p.0@, opt_view(p.1)),
            ),
            Err(e) => url_parts(s@) == Err::<(Seq<char>, Option<Seq<char>>), Seq<char>>(e@),
        },
{
    match url::Url::parse(s) {
        Ok(u) => Ok((u.scheme().to_string(), u.host_str().map(|h| h.to_string()))),
        Err(e) => Err(e.to_string()),
    }
}

/// The lines of a definition's argument list: each argument quoted and
/// indented, separated by a comma and a line break.
pub open spec fn quoted_list(items: Seq<Seq<char>>) -> Seq<char>
    decreases items.len(),
{
    if items.len() == 0 {
        Seq::empty()
    } else if items.len() == 1 {
        "  \""@ + items[0] + "\""@
    } else {
        quoted_list(items.drop_last()) + ",\n"@ + "  \""@ + items.last() + "\""@
    }
}

/// The characters of each text.
pub open spec fn str_views(v: Seq<&str>) -> Seq<Seq<char>> {
    v.map_values(|s: &str| s@)
}

/// Writes the argument list of a definition.
fn quoted_lines(items: &Vec<&str>) -> (r: String)
    ensures
        r@ == quoted_list(str_views(items@)),
{
    let mut out = String::new();
    let mut i: usize = 0;
    while i < items.len()
        invariant
            0 <= i <= items@.len(),
            out@ == quoted_list(str_views(items@.subrange(0, i as int))),
        decreases items@.len() - i,
    {
        let ghost prev = str_views(items@.subrange(0, i as int));
        let ghost next = str_views(items@.subrange(0, i + 1));
        assert(next.drop_last() =~= prev);
        assert(next.last() == items@[i as int]@);
        if i > 0 {
            out.append(",\n");
        } else {
            assert(prev =~= Seq::<Seq<char>>::empty());
            assert(out@ =~= Seq::<char>::empty());
        }
        out.append("  \"");
        out.append(items[i]);
        out.append("\"");
        proof {
            if i == 0 {
                assert(next.len() == 1);
                assert(next[0] == items@[0]@);
                assert(out@ =~= "  \""@ + next[0] + "\""@);
            } else {
                assert(out@ =~= quoted_list(prev) + ",\n"@ + "  \""@ + next.last() + "\""@);
            }
        }
        i += 1;
    }
    assert(items@.subrange(0, items@.len() as int) =~= items@);
    out
}

/// A server definition: name, description, a `docker` command over `args`,
/// and the environment table `envs`.
pub open spec fn server_toml(
    name: Seq<char>,
    description: Seq<char>,
    args: Seq<Seq<char>>,
    envs: Seq<char>,
) -> Seq<char> {
    "[[server]]\nname = \""@ + name + "\"\ndescription = \""@ + description
        + "\"\ntransport = \"stdio\"\ncommand = \"docker\"\nargs = [\n"@ + quoted_list(args)
        + "\n]\nenvs = "@ + envs + "\n"@
}

/// Writes a server definition.
fn write_server_toml(name: &str, description: &str, args: &Vec<&str>, envs: &str) -> (r: String)
    ensures
        r@ == server_toml(name@, description@, str_views(args@), envs@),
{
    let mut out = String::from_str("[[server]]\nname = \"");
    out.append(name);
    out.append("\"\ndescription = \"");
    out.append(description);
    out.append("\"\ntransport = \"stdio\"\ncommand = \"docker\"\nargs = [\n");
    let list = quoted_lines(args);
    out.append(list.as_str());
    out.append("\n]\nenvs = ");
    out.append(envs);
    out.append("\n");
    out
}

/// The error for an address that does not parse.
pub open spec fn invalid_url_text(e: Seq<char>) -> Seq<char> {
    "Invalid URL: "@ + e
}

/// The arguments that start the GitHub server; an enterprise host is passed on.
pub open spec fn github_args(enterprise: bool) -> Seq<Seq<char>> {
    if enterprise {
        seq![
            "run"@,
            "-i"@,
            "--rm"@,
            "-e"@,
            "GITHUB_PERSONAL_ACCESS_TOKEN"@,
            "-e"@,
            "GITHUB_HOST"@,
            "ghcr.io/github/github-mcp-server"@,
        ]
    } else {
        seq![
            "run"@,
            "-i"@,
            "--rm"@,
            "-e"@,
            "GITHUB_PERSONAL_ACCESS_TOKEN"@,
            "ghcr.io/github/github-mcp-server"@,
        ]
    }
}

/// The environment of the GitHub server.
pub open spec fn github_envs(token: Seq<char>, host: Seq<char>, enterprise: bool) -> Seq<char> {
    if enterprise {
        "{ GITHUB_PERSONAL_ACCESS_TOKEN = \""@ + token + "\", GITHUB_HOST = \""@ + host + "\" }"@
    } else {
        "{ GITHUB_PERSONAL_ACCESS_TOKEN = \""@ + token + "\" }"@
    }
}

/// The GitHub server definition for an address: the host defaults to
/// github.com, and any other host is an enterprise one.
pub open spec fn github_definition(name: Seq<char>, url: Seq<char>, token: Seq<char>) -> Result<
    Seq<char>,
    Seq<char>,
> {
    match url_parts(url) {
        Err(e) => Err(invalid_url_text(e)),
        Ok(parts) => {
            let host = match parts.1 {
                Some(h) => h,
                None => "github.com"@,
            };
            let enterprise = host != "github.com"@;
            Ok(
                server_toml(
                    name,
                    "GitHub MCP Server"@,
                    github_args(enterprise),
                    github_envs(token, host, enterprise),
                ),
            )
        },
    }
}

/// A definition result as the library reports it.
pub open spec fn definition_matches(r: Result<String, AppError>, d: Result<Seq<char>, Seq<char>>) -> bool {
    match r {
        Ok(t) => d == Ok::<Seq<char>, Seq<char>>(t@),
        Err(e) => d matches Err(m) && (e matches AppError::InvalidInput(x) && x@ == m),
    }
}

/// Writes the GitHub server definition (see [`github_definition`]).
pub fn github_mcp_toml(name: &str, url: &str, token: &str) -> (r: Result<String, AppError>)
    ensures
        definition_matches(r, github_definition(name@, url@, token@)),
{
    let parts = match parse_url(url) {
        Ok(p) => p,
        Err(e) => {
            return Err(AppError::InvalidInput(concat2("Invalid URL: ", e.as_str())));
        },
    };
    let host: String = match parts.1 {
        Some(h) => h,
        None => String::from_str("github.com"),
    };
    let enterprise = !text_eq(host.as_str(), "github.com");
    let mut args: Vec<&str> = vec!["run", "-i", "--rm", "-e", "GITHUB_PERSONAL_ACCESS_TOKEN"];
    if enterprise {
        args.push("-e");
        args.push("GITHUB_HOST");
    }
    args.push("ghcr.io/github/github-mcp-server");
    assert(str_views(args@) =~= github_args(enterprise));
    let envs = if enterprise {
        let mut e = String::from_str("{ GITHUB_PERSONAL_ACCESS_TOKEN = \"");
        e.append(token);
        e.append("\", GITHUB_HOST = \"");
        e.append(host.as_str());
        e.append("\" }");
        e
    } else {
        concat3("{ GITHUB_PERSONAL_ACCESS_TOKEN = \"", token, "\" }")
    };
    Ok(write_server_toml(name, "GitHub MCP Server", &args, envs.as_str()))
}

/// The arguments that start the Gitea server; a plain-http host is marked
/// insecure.
pub open spec fn gitea_args(insecure: bool) -> Seq<Seq<char>> {
    if insecure {
        seq![
            "run"@,
            "-i"@,
            "--rm"@,
            "-e"@,
            "GITEA_ACCESS_TOKEN"@,
            "-e"@,
            "GITEA_HOST"@,
            "-e"@,
            "GITEA_INSECURE"@,
            "docker.gitea.com/gitea-mcp-server"@,
        ]
    } else {
        seq![
            "run"@,
            "-i"@,
            "--rm"@,
            "-e"@,
            "GITEA_ACCESS_TOKEN"@,
            "-e"@,
            "GITEA_HOST"@,
            "docker.gitea.com/gitea-mcp-server"@,
        ]
    }
}

/// The environment of the Gitea server.
pub open spec fn gitea_envs(token: Seq<char>, url: Seq<char>, insecure: bool) -> Seq<char> {
    if insecure {
        "{ GITEA_ACCESS_TOKEN = \""@ + token + "\", GITEA_HOST = \""@ + url
            + "\", GITEA_INSECURE = \"true\" }"@
    } else {
        "{ GITEA_ACCESS_TOKEN = \""@ + token + "\", GITEA_HOST = \""@ + url + "\" }"@
    }
}

/// The Gitea server definition for an address: the host is the whole
/// address, and an `http` scheme is insecure.
pub open spec fn gitea_definition(name: Seq<char>, url: Seq<char>, token: Seq<char>) -> Result<
    Seq<char>,
    Seq<char>,
> {
    match url_parts(url) {
        Err(e) => Err(invalid_url_text(e)),
        Ok(parts) => {
            let insecure = parts.0 == "http"@;
            Ok(
                server_toml(
                    name,
                    "Gitea MCP Server"@,
                    gitea_args(insecure),
                    gitea_envs(token, url, insecure),
                ),
            )
        },
    }
}

/// Writes the Gitea server definition (see [`gitea_definition`]).
pub fn gitea_mcp_toml(name: &str, url: &str, token: &str) -> (r: Result<String, AppError>)
    ensures
        definition_matches(r, gitea_definition(name@, url@, token@)),
{
    let parts = match parse_url(url) {
        Ok(p) => p,
        Err(e) => {
            return Err(AppError::InvalidInput(concat2("Invalid URL: ", e.as_str())));
        },
    };
    let insecure = text_eq(parts.0.as_str(), "http");
    let mut args: Vec<&str> = vec!["run", "-i", "--rm", "-e", "GITEA_ACCESS_TOKEN", "-e", "GITEA_HOST"];
    if insecure {
        args.push("-e");
        args.push("GITEA_INSECURE");
    }
    args.push("docker.gitea.com/gitea-mcp-server");
    assert(str_views(args@) =~= gitea_args(insecure));
    let mut envs = String::from_str("{ GITEA_ACCESS_TOKEN = \"");
    envs.append(token);
    envs.append("\", GITEA_HOST = \"");
    envs.append(url);
    if insecure {
        envs.append("\", GITEA_INSECURE = \"true\" }");
    } else {
        envs.append("\" }");
    }
    Ok(write_server_toml(name, "Gitea MCP Server", &args, envs.as_str()))
}

/// A token with a double quote is refused before anything is sent, whatever
/// the address, as long as the runner name itself is valid.
pub proof fn lemma_quoted_token_rejected(name: Seq<char>, url: Seq<char>, token: Seq<char>, i: int)
    requires
        runner_name_error(name) is None,
        0 <= i < token.len(),
        token[i] == '"',
    ensures
        runner_request_error(name, url, token) == Some(forbidden_text("Token"@)),
{
    assert(is_forbidden(token[i]));
}

/// The registration that a request leads to: the first validation failure,
/// then a name already taken, then an unsupported platform; else the
/// platform's definition and its description.
pub open spec fn runner_plan(
    platform: Seq<char>,
    name: Seq<char>,
    url: Seq<char>,
    token: Seq<char>,
    already_exists: bool,
) -> Result<(Seq<char>, Seq<char>), Seq<char>> {
    match runner_request_error(name, url, token) {
        Some(t) => Err(t),
        None => if already_exists {
            Err("Runner with name '"@ + name + "' already exists"@)
        } else {
            let d = if platform == "GitHub"@ {
                Some(github_definition(name, url, token))
            } else if platform == "Gitea"@ {
                Some(gitea_definition(name, url, token))
            } else {
                None
            };
            match d {
                None => Err(
                    "Unsupported platform: "@ + platform
                        + ". Only 'GitHub' and 'Gitea' are supported."@,
                ),
                Some(Err(e)) => Err(e),
                Some(Ok(def)) => Ok((def, platform + " MCP Server"@)),
            }
        },
    }
}

/// Decides the registration of a runner, once the backend has said whether
/// the name is taken (see [`runner_plan`]). Every failure is InvalidInput.
pub fn plan_runner_creation(
    platform: &str,
    name: &str,
    url: &str,
    token: &str,
    already_exists: bool,
) -> (r: Result<RunnerDefinition, AppError>)
    ensures
        match r {
            Ok(d) => d.name@ == name@ && runner_plan(platform@, name@, url@, token@, already_exists)
                == Ok::<(Seq<char>, Seq<char>), Seq<char>>((d.definition@, d.description@)),
            Err(e) => runner_plan(platform@, name@, url@, token@, already_exists) matches Err(t) && (
            e matches AppError::InvalidInput(m) && m@ == t),
        },
{
    match validate_runner_request(name, url, token) {
        Ok(()) => {},
        Err(e) => {
            return Err(e);
        },
    }
    if already_exists {
        return Err(AppError::InvalidInput(concat3("Runner with name '", name, "' already exists")));
    }
    let definition = if text_eq(platform, "GitHub") {
        github_mcp_toml(name, url, token)
    } else if text_eq(platform, "Gitea") {
        gitea_mcp_toml(name, url, token)
    } else {
        return Err(
            AppError::InvalidInput(
                concat3(
                    "Unsupported platform: ",
                    platform,
                    ". Only 'GitHub' and 'Gitea' are supported.",
                ),
            ),
        );
    };
    match definition {
        Ok(text) => Ok(
            RunnerDefinition {
                name: String::from_str(name),
                description: concat2(platform, " MCP Server"),
                definition: text,
            },
        ),
        Err(e) => Err(e),
    }
}

impl RunnerDefinition {
    /// How the registered runner is listed: its name and description, as a
    /// tool server.
    pub fn server_info(&self) -> (r: McpServerInfo)
        ensures
            r.name@ == self.name@,
            opt_view(r.description) == Some(self.description@),
            r.runner_type@ == "MCP_SERVER"@,
    {
        McpServerInfo {
            name: self.name.clone(),
            description: Some(self.description.clone()),
            runner_type: String::from_str("MCP_SERVER"),
        }
    }
}

// ---------------------------------------------------------------------------
// Reading the token back
// ---------------------------------------------------------------------------

/// The environment variable that holds the platform's access token.
pub open spec fn token_key(platform: Platform) -> Seq<char> {
    match platform {
        Platform::GitHub => "GITHUB_PERSONAL_ACCESS_TOKEN"@,
        Platform::Gitea => "GITEA_ACCESS_TOKEN"@,
    }
}

/// The token in the definition's `envs` table, if it is there as a string.
pub open spec fn env_token(def: Json, key: Seq<char>) -> Option<Seq<char>> {
    match def.field("envs"@) {
        Some(e) => opt_text(e.field(key)),
        None => None,
    }
}

/// The value of the first `-e KEY=value` pair among the string arguments.
pub open spec fn arg_token(args: Seq<Seq<char>>, prefix: Seq<char>) -> Option<Seq<char>>
    decreases args.len(),
{
    if args.len() < 2 {
        None
    } else if args[0] == "-e"@ && has_prefix(args[1], prefix) {
        Some(args[1].skip(prefix.len() as int))
    } else {
        arg_token(args.drop_first(), prefix)
    }
}

/// Reads a string argument.
pub open spec fn arg_reader() -> spec_fn(Json) -> Option<Seq<char>> {
    |a: Json| a.text()
}

/// The token that a runner definition holds for `platform`: from `envs`
/// first, else from a `-e KEY=value` argument pair.
pub open spec fn definition_token(def: Json, platform: Platform) -> Option<Seq<char>> {
    let key = token_key(platform);
    match env_token(def, key) {
        Some(t) => Some(t),
        None => match opt_items(def.field("args"@)) {
            Some(a) => arg_token(crate::json::filter_map(a, arg_reader()), key + "="@),
            None => None,
        },
    }
}

/// The token of a runner definition text: Internal when the text is not
/// JSON, or holds no token for the platform.
pub open spec fn runner_token(definition: Seq<u8>, platform: Platform) -> Result<Seq<char>, Seq<char>> {
    match json_from_bytes(definition) {
        Err(e) => Err("Failed to parse runner definition: "@ + e),
        Ok(def) => match definition_token(def, platform) {
            Some(t) => Ok(t),
            None => Err("Token '"@ + token_key(platform) + "' not found in runner definition"@),
        },
    }
}

/// The string arguments among `arr`, in order.
fn string_args(arr: &Vec<Json>) -> (r: Vec<String>)
    ensures
        crate::json::texts(r@) == crate::json::filter_map(arr@, arg_reader()),
{
    let mut out: Vec<String> = Vec::new();
    let mut i: usize = 0;
    while i < arr.len()
        invariant
            0 <= i <= arr@.len(),
            crate::json::texts(out@) == crate::json::filter_map(
                arr@.subrange(0, i as int),
                arg_reader(),
            ),
        decreases arr@.len() - i,
    {
        proof {
            crate::json::lemma_filter_map_step(arr@, i as int, arg_reader());
        }
        match arr[i].as_str() {
            Some(s) => {
                let ghost before = out@;
                out.push(s.clone());
                assert(crate::json::texts(out@) =~= crate::json::texts(before).push(s@));
            },
            None => {},
        }
        i += 1;
    }
    assert(arr@.subrange(0, arr@.len() as int) =~= arr@);
    out
}

/// The value of the first `-e KEY=value` pair among `args`.
fn token_in_args(args: &Vec<String>, prefix: &str) -> (r: Option<String>)
    ensures
        opt_view(r) == arg_token(crate::json::texts(args@), prefix@),
{
    let ghost all = crate::json::texts(args@);
    let mut i: usize = 0;
    proof {
        assert(all.subrange(0, all.len() as int) =~= all);
    }
    while i < args.len() && i + 1 < args.len()
        invariant
            all == crate::json::texts(args@),
            0 <= i <= args@.len(),
            arg_token(all, prefix@) == arg_token(all.subrange(i as int, all.len() as int), prefix@),
        decreases args@.len() - i,
    {
        let ghost rest = all.subrange(i as int, all.len() as int);
        assert(rest.drop_first() =~= all.subrange(i + 1, all.len() as int));
        assert(rest[0] == args@[i as int]@);
        assert(rest[1] == args@[i + 1]@);
        if text_eq(args[i].as_str(), "-e") && starts_with_text(args[i + 1].as_str(), prefix) {
            let v = args[i + 1].as_str();
            let k = prefix.unicode_len();
            let n = v.unicode_len();
            let t = v.substring_char(k, n);
            assert(t@ =~= rest[1].skip(prefix@.len() as int));
            return Some(String::from_str(t));
        }
        i += 1;
    }
    None
}

/// Reads the platform's access token out of a runner definition (see
/// [`runner_token`]); every failure is Internal.
pub fn extract_token_from_runner(definition: &str, platform: Platform) -> (r: Result<
    String,
    AppError,
>)
    ensures
        match r {
            Ok(t) => runner_token(vstd::utf8::encode_utf8(definition@), platform) == Ok::<Seq<char>, Seq<char>>(
                t@,
            ),
            Err(e) => runner_token(vstd::utf8::encode_utf8(definition@), platform) matches Err(m) && (
            e matches AppError::Internal(x) && x@ == m),
        },
{
    let def = match parse_json_bytes(definition.as_bytes()) {
        Ok(d) => d,
        Err(e) => {
            return Err(
                AppError::Internal(concat2("Failed to parse runner definition: ", e.as_str())),
            );
        },
    };
    let key = match platform {
        Platform::GitHub => "GITHUB_PERSONAL_ACCESS_TOKEN",
        Platform::Gitea => "GITEA_ACCESS_TOKEN",
    };
    match def.get("envs") {
        Some(envs) => match crate::json::text_at(envs, key) {
            Some(t) => {
                return Ok(t);
            },
            None => {},
        },
        None => {},
    }
    match crate::json::items_at(&def, "args") {
        Some(a) => {
            let args = string_args(a);
            let prefix = concat2(key, "=");
            match token_in_args(&args, prefix.as_str()) {
                Some(t) => {
                    return Ok(t);
                },
                None => {},
            }
        },
        None => {},
    }
    Err(AppError::Internal(concat3("Token '", key, "' not found in runner definition")))
}

/// `url` without a leading `https://`.
pub open spec fn without_https(url: Seq<char>) -> Seq<char> {
    if has_prefix(url, "https://"@) {
        url.skip("https://"@.len() as int)
    } else {
        url
    }
}

/// The address to clone a repository with an access token embedded:
/// `https://`, a platform-specific user and the token, then the address
/// without its scheme, ending in `.git`.
pub open spec fn clone_url(repo_url: Seq<char>, token: Seq<char>, platform: Platform) -> Seq<char> {
    let bare = without_https(repo_url);
    let base = if has_suffix(bare, ".git"@) {
        bare
    } else {
        bare + ".git"@
    };
    match platform {
        Platform::GitHub => "https://x-access-token:"@ + token + "@"@ + base,
        Platform::Gitea => "https://git:"@ + token + "@"@ + base,
    }
}

/// Builds the clone address with the token embedded (see [`clone_url`]).
/// The result carries a credential.
pub fn build_authenticated_clone_url(repo_url: &str, token: &str, platform: Platform) -> (r: String)
    ensures
        r@ == clone_url(repo_url@, token@, platform),
{
    let bare: &str = if starts_with_text(repo_url, "https://") {
        let k = "https://".unicode_len();
        let n = repo_url.unicode_len();
        repo_url.substring_char(k, n)
    } else {
        repo_url
    };
    assert(bare@ =~= without_https(repo_url@));
    let base = if ends_with_text(bare, ".git") {
        String::from_str(bare)
    } else {
        concat2(bare, ".git")
    };
    match platform {
        Platform::GitHub => concat3("https://x-access-token:", token, "@") .concat(base.as_str()),
        Platform::Gitea => concat3("https://git:", token, "@").concat(base.as_str()),
    }
}

} // verus!
