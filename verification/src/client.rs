//! The API client: it owns the credential and the base URL, and for each
//! domain operation builds the request (verb, path, JSON body) and handles
//! the response (status classification, field extraction). The HTTP
//! transport that carries a request and brings back a status and a body is
//! the caller's.

use vstd::prelude::*;

use crate::auth::AuthToken;
use crate::errors::GitHubError;
use crate::json::{escape_json, json_escaped};
use crate::response::{
    field_response_spec, handle_field2_response, handle_field_response, handle_unit_response,
    json_text_field, json_text_field2, unit_response_spec,
};

verus! {

/// The HTTP verb of a request.
#[derive(Clone, Copy, Debug, PartialEq, Eq, Structural)]
pub enum HttpMethod {
    Get,
    Post,
    Patch,
}

/// One API request, ready for a transport: the verb, the path below the
/// base URL (always starting with `/`), and the JSON body where the verb
/// carries one.
#[derive(Clone, Debug)]
pub struct HttpRequest {
    pub method: HttpMethod,
    pub path: String,
    pub body: Option<String>,
}

/// The path that looks a branch ref up.
pub open spec fn ref_lookup_path(owner: Seq<char>, repo: Seq<char>, branch: Seq<char>) -> Seq<
    char,
> {
    "/repos/"@ + owner + "/"@ + repo + "/git/ref/heads/"@ + branch
}

/// The path that creates a ref.
pub open spec fn refs_path(owner: Seq<char>, repo: Seq<char>) -> Seq<char> {
    "/repos/"@ + owner + "/"@ + repo + "/git/refs"@
}

/// The path that looks a commit up.
pub open spec fn commit_lookup_path(owner: Seq<char>, repo: Seq<char>, sha: Seq<char>) -> Seq<
    char,
> {
    "/repos/"@ + owner + "/"@ + repo + "/git/commits/"@ + sha
}

/// The path that creates a blob.
pub open spec fn blobs_path(owner: Seq<char>, repo: Seq<char>) -> Seq<char> {
    "/repos/"@ + owner + "/"@ + repo + "/git/blobs"@
}

/// The path that creates a tree.
pub open spec fn trees_path(owner: Seq<char>, repo: Seq<char>) -> Seq<char> {
    "/repos/"@ + owner + "/"@ + repo + "/git/trees"@
}

/// The path that creates a commit.
pub open spec fn commits_path(owner: Seq<char>, repo: Seq<char>) -> Seq<char> {
    "/repos/"@ + owner + "/"@ + repo + "/git/commits"@
}

/// The path that updates a branch ref.
pub open spec fn ref_update_path(owner: Seq<char>, repo: Seq<char>, branch: Seq<char>) -> Seq<
    char,
> {
    "/repos/"@ + owner + "/"@ + repo + "/git/refs/heads/"@ + branch
}

/// The path that opens a pull request.
pub open spec fn pulls_path(owner: Seq<char>, repo: Seq<char>) -> Seq<char> {
    "/repos/"@ + owner + "/"@ + repo + "/pulls"@
}

/// The body that creates a ref: the full ref name and the SHA it points at.
pub open spec fn create_branch_body(branch_ref: Seq<char>, sha: Seq<char>) -> Seq<char> {
    "{\"ref\":\""@ + json_escaped(branch_ref) + "\",\"sha\":\""@ + json_escaped(sha) + "\"}"@
}

/// The body that creates a blob: the content, sent as text.
pub open spec fn create_blob_body(content: Seq<char>) -> Seq<char> {
    "{\"content\":\""@ + json_escaped(content) + "\",\"encoding\":\"utf-8\"}"@
}

/// The body that creates a tree: one file entry on top of a base tree.
pub open spec fn create_tree_body(
    base_tree: Seq<char>,
    path: Seq<char>,
    blob_sha: Seq<char>,
) -> Seq<char> {
    "{\"base_tree\":\""@ + json_escaped(base_tree) + "\",\"tree\":[{\"path\":\""@ + json_escaped(
        path,
    ) + "\",\"mode\":\"100644\",\"type\":\"blob\",\"sha\":\""@ + json_escaped(blob_sha) + "\"}]}"@
}

/// The body that creates a commit: message, tree, and the sole parent.
pub open spec fn create_commit_body(
    message: Seq<char>,
    tree_sha: Seq<char>,
    parent_sha: Seq<char>,
) -> Seq<char> {
    "{\"message\":\""@ + json_escaped(message) + "\",\"tree\":\""@ + json_escaped(tree_sha)
        + "\",\"parents\":[\""@ + json_escaped(parent_sha) + "\"]}"@
}

/// The body that moves a branch ref, without force.
pub open spec fn update_ref_body(commit_sha: Seq<char>) -> Seq<char> {
    "{\"sha\":\""@ + json_escaped(commit_sha) + "\",\"force\":false}"@
}

/// The body that opens a pull request.
pub open spec fn create_pull_request_body(
    title: Seq<char>,
    body: Seq<char>,
    base: Seq<char>,
    head: Seq<char>,
) -> Seq<char> {
    "{\"title\":\""@ + json_escaped(title) + "\",\"body\":\""@ + json_escaped(body)
        + "\",\"base\":\""@ + json_escaped(base) + "\",\"head\":\""@ + json_escaped(head) + "\"}"@
}

/// Appends a string value, escaped for JSON, to a body under construction.
fn append_json_str(r: &mut String, v: &str)
    ensures
        final(r)@ == old(r)@ + json_escaped(v@),
{
    let e = escape_json(v);
    r.append(e.as_str());
}

/// Builds `/repos/{owner}/{repo}` followed by the given tail.
fn repo_path(owner: &str, repo: &str, tail: &str) -> (r: String)
    ensures
        r@ == "/repos/"@ + owner@ + "/"@ + repo@ + tail@,
{
    let mut r = String::from_str("/repos/");
    r.append(owner);
    r.append("/");
    r.append(repo);
    r.append(tail);
    r
}

/// The client: the credential and the base URL every path is appended to.
pub struct GitHubClient {
    pub token: AuthToken,
    pub base_url: String,
}

/// A base URL is well formed when it does not end in a slash, so that
/// appending a path that starts with one yields a clean URL.
pub open spec fn base_url_wf(base_url: Seq<char>) -> bool {
    base_url.len() > 0 ==> base_url.last() != '/'
}

impl GitHubClient {
    /// Stores the credential and the default base URL.
    pub fn new(token: String) -> (r: Self)
        ensures
            r.token.0@ == token@,
            r.base_url@ == "https://api.github.com"@,
            base_url_wf(r.base_url@),
    {
        let base_url = String::from_str("https://api.github.com");
        proof {
            reveal_strlit("https://api.github.com");
        }
        GitHubClient { token: AuthToken::new(token), base_url }
    }

    /// Replaces the base URL, for callers that point the client elsewhere
    /// (a local test server). The new URL must not end in a slash.
    pub fn set_base_url(&mut self, base_url: String)
        requires
            base_url_wf(base_url@),
        ensures
            final(self).base_url@ == base_url@,
            final(self).token == old(self).token,
            base_url_wf(final(self).base_url@),
    {
        self.base_url = base_url;
    }

    /// The full URL for a path: the base URL with the path appended.
    pub fn url(&self, path: &str) -> (r: String)
        ensures
            r@ == self.base_url@ + path@,
    {
        let mut r = self.base_url.clone();
        r.append(path);
        r
    }

    /// The request that lists the authenticated user's repositories.
    pub fn get_user_repos_request(&self) -> (r: HttpRequest)
        ensures
            r.method == HttpMethod::Get,
            r.path@ == "/user/repos"@,
            r.body is None,
    {
        HttpRequest { method: HttpMethod::Get, path: String::from_str("/user/repos"), body: None }
    }

    /// The request that fetches the latest commit SHA of a branch.
    pub fn get_base_branch_sha_request(&self, owner: &str, repo: &str, base_branch: &str) -> (r:
        HttpRequest)
        ensures
            r.method == HttpMethod::Get,
            r.path@ == ref_lookup_path(owner@, repo@, base_branch@),
            r.body is None,
    {
        let mut path = repo_path(owner, repo, "/git/ref/heads/");
        path.append(base_branch);
        HttpRequest { method: HttpMethod::Get, path, body: None }
    }

    /// Handles the branch-lookup response: the SHA under `object.sha`.
    pub fn get_base_branch_sha_response(status: u16, body: &str) -> (r: Result<
        String,
        GitHubError,
    >)
        ensures
            field_response_spec(
                r,
                status,
                body@,
                json_text_field2(body@, "object"@, "sha"@),
                "Failed to extract SHA from response"@,
            ),
    {
        handle_field2_response(status, body, "object", "sha", "Failed to extract SHA from response")
    }

    /// The request that creates a branch pointing at a base SHA.
    pub fn create_branch_request(
        &self,
        owner: &str,
        repo: &str,
        new_branch_name: &str,
        base_sha: &str,
    ) -> (r: HttpRequest)
        ensures
            r.method == HttpMethod::Post,
            r.path@ == refs_path(owner@, repo@),
            r.body matches Some(b) && b@ == create_branch_body(
                "refs/heads/"@ + new_branch_name@,
                base_sha@,
            ),
    {
        let path = repo_path(owner, repo, "/git/refs");
        let mut branch_ref = String::from_str("refs/heads/");
        branch_ref.append(new_branch_name);
        let mut body = String::from_str("{\"ref\":\"");
        append_json_str(&mut body, branch_ref.as_str());
        body.append("\",\"sha\":\"");
        append_json_str(&mut body, base_sha);
        body.append("\"}");
        HttpRequest { method: HttpMethod::Post, path, body: Some(body) }
    }

    /// Handles the branch-creation response: success carries no value.
    pub fn create_branch_response(status: u16, body: &str) -> (r: Result<(), GitHubError>)
        ensures
            unit_response_spec(r, status, body@),
    {
        handle_unit_response(status, body)
    }

    /// The request that fetches the tree SHA of a commit.
    pub fn get_latest_tree_sha_request(&self, owner: &str, repo: &str, commit_sha: &str) -> (r:
        HttpRequest)
        ensures
            r.method == HttpMethod::Get,
            r.path@ == commit_lookup_path(owner@, repo@, commit_sha@),
            r.body is None,
    {
        let mut path = repo_path(owner, repo, "/git/commits/");
        path.append(commit_sha);
        HttpRequest { method: HttpMethod::Get, path, body: None }
    }

    /// Handles the commit-lookup response: the SHA under `tree.sha`.
    pub fn get_latest_tree_sha_response(status: u16, body: &str) -> (r: Result<String, GitHubError>)
        ensures
            field_response_spec(
                r,
                status,
                body@,
                json_text_field2(body@, "tree"@, "sha"@),
                "Failed to extract tree SHA from response"@,
            ),
    {
        handle_field2_response(
            status,
            body,
            "tree",
            "sha",
            "Failed to extract tree SHA from response",
        )
    }

    /// The request that creates a blob holding the given content.
    pub fn create_blob_request(&self, owner: &str, repo: &str, content: &str) -> (r: HttpRequest)
        ensures
            r.method == HttpMethod::Post,
            r.path@ == blobs_path(owner@, repo@),
            r.body matches Some(b) && b@ == create_blob_body(content@),
    {
        let path = repo_path(owner, repo, "/git/blobs");
        let mut body = String::from_str("{\"content\":\"");
        append_json_str(&mut body, content);
        body.append("\",\"encoding\":\"utf-8\"}");
        HttpRequest { method: HttpMethod::Post, path, body: Some(body) }
    }

    /// Handles the blob-creation response: the SHA under `sha`.
    pub fn create_blob_response(status: u16, body: &str) -> (r: Result<String, GitHubError>)
        ensures
            field_response_spec(
                r,
                status,
                body@,
                json_text_field(body@, "sha"@),
                "Failed to extract blob SHA from response"@,
            ),
    {
        handle_field_response(status, body, "sha", "Failed to extract blob SHA from response")
    }

    /// The request that creates a tree with one file entry on a base tree.
    pub fn create_tree_request(
        &self,
        owner: &str,
        repo: &str,
        base_tree: &str,
        path: &str,
        blob_sha: &str,
    ) -> (r: HttpRequest)
        ensures
            r.method == HttpMethod::Post,
            r.path@ == trees_path(owner@, repo@),
            r.body matches Some(b) && b@ == create_tree_body(base_tree@, path@, blob_sha@),
    {
        let api_path = repo_path(owner, repo, "/git/trees");
        let mut body = String::from_str("{\"base_tree\":\"");
        append_json_str(&mut body, base_tree);
        body.append("\",\"tree\":[{\"path\":\"");
        append_json_str(&mut body, path);
        body.append("\",\"mode\":\"100644\",\"type\":\"blob\",\"sha\":\"");
        append_json_str(&mut body, blob_sha);
        body.append("\"}]}");
        HttpRequest { method: HttpMethod::Post, path: api_path, body: Some(body) }
    }

    /// Handles the tree-creation response: the SHA under `sha`.
    pub fn create_tree_response(status: u16, body: &str) -> (r: Result<String, GitHubError>)
        ensures
            field_response_spec(
                r,
                status,
                body@,
                json_text_field(body@, "sha"@),
                "Failed to extract tree SHA from response"@,
            ),
    {
        handle_field_response(status, body, "sha", "Failed to extract tree SHA from response")
    }

    /// The request that creates a commit for a tree with one parent.
    pub fn create_commit_request(
        &self,
        owner: &str,
        repo: &str,
        message: &str,
        tree_sha: &str,
        parent_sha: &str,
    ) -> (r: HttpRequest)
        ensures
            r.method == HttpMethod::Post,
            r.path@ == commits_path(owner@, repo@),
            r.body matches Some(b) && b@ == create_commit_body(message@, tree_sha@, parent_sha@),
    {
        let path = repo_path(owner, repo, "/git/commits");
        let mut body = String::from_str("{\"message\":\"");
        append_json_str(&mut body, message);
        body.append("\",\"tree\":\"");
        append_json_str(&mut body, tree_sha);
        body.append("\",\"parents\":[\"");
        append_json_str(&mut body, parent_sha);
        body.append("\"]}");
        HttpRequest { method: HttpMethod::Post, path, body: Some(body) }
    }

    /// Handles the commit-creation response: the SHA under `sha`.
    pub fn create_commit_response(status: u16, body: &str) -> (r: Result<String, GitHubError>)
        ensures
            field_response_spec(
                r,
                status,
                body@,
                json_text_field(body@, "sha"@),
                "Failed to extract commit SHA from response"@,
            ),
    {
        handle_field_response(status, body, "sha", "Failed to extract commit SHA from response")
    }

    /// The request that moves a branch ref to a commit, without force.
    pub fn update_branch_reference_request(
        &self,
        owner: &str,
        repo: &str,
        branch: &str,
        commit_sha: &str,
    ) -> (r: HttpRequest)
        ensures
            r.method == HttpMethod::Patch,
            r.path@ == ref_update_path(owner@, repo@, branch@),
            r.body matches Some(b) && b@ == update_ref_body(commit_sha@),
    {
        let mut path = repo_path(owner, repo, "/git/refs/heads/");
        path.append(branch);
        let mut body = String::from_str("{\"sha\":\"");
        append_json_str(&mut body, commit_sha);
        body.append("\",\"force\":false}");
        HttpRequest { method: HttpMethod::Patch, path, body: Some(body) }
    }

    /// Handles the ref-update response: success carries no value.
    pub fn update_branch_reference_response(status: u16, body: &str) -> (r: Result<
        (),
        GitHubError,
    >)
        ensures
            unit_response_spec(r, status, body@),
    {
        handle_unit_response(status, body)
    }

    /// The request that opens a pull request from `head` into `base`.
    pub fn create_pull_request_request(
        &self,
        owner: &str,
        repo: &str,
        base: &str,
        head: &str,
        title: &str,
        body: &str,
    ) -> (r: HttpRequest)
        ensures
            r.method == HttpMethod::Post,
            r.path@ == pulls_path(owner@, repo@),
            r.body matches Some(b) && b@ == create_pull_request_body(title@, body@, base@, head@),
    {
        let path = repo_path(owner, repo, "/pulls");
        let mut request_body = String::from_str("{\"title\":\"");
        append_json_str(&mut request_body, title);
        request_body.append("\",\"body\":\"");
        append_json_str(&mut request_body, body);
        request_body.append("\",\"base\":\"");
        append_json_str(&mut request_body, base);
        request_body.append("\",\"head\":\"");
        append_json_str(&mut request_body, head);
        request_body.append("\"}");
        HttpRequest { method: HttpMethod::Post, path, body: Some(request_body) }
    }

    /// Handles the pull-request-creation response: success carries no value.
    pub fn create_pull_request_response(status: u16, body: &str) -> (r: Result<(), GitHubError>)
        ensures
            unit_response_spec(r, status, body@),
    {
        handle_unit_response(status, body)
    }
}

} // verus!
