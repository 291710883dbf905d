//! The commit-assembly sequence: six calls, strictly in order, each step's
//! output SHA feeding the next step's input. The sequence is a small state
//! machine; the caller performs each request with its transport and hands
//! the status and body back. A failed step propagates its error and leaves
//! the state where it was; there is no rollback for objects already created.

use vstd::prelude::*;

use crate::client::{
    blobs_path, commit_lookup_path, commits_path, create_blob_body, create_commit_body,
    create_tree_body, ref_lookup_path, ref_update_path, trees_path, update_ref_body, GitHubClient,
    HttpMethod, HttpRequest,
};
use crate::errors::GitHubError;
use crate::response::{field_response_spec, json_text_field, json_text_field2, unit_response_spec};

verus! {

/// The fixed inputs of one commit assembly: where the commit goes and the
/// one file it writes.
pub struct AssemblyParams {
    pub owner: String,
    pub repo: String,
    pub branch: String,
    pub file_path: String,
    pub content: String,
    pub message: String,
}

/// How far an assembly has come, carrying the SHAs gathered so far. Each
/// state names what the next request needs.
#[derive(Clone, Debug)]
pub enum AssemblyState {
    /// Nothing fetched yet; next, look the branch head up.
    Start,
    /// The branch head; next, look its tree up.
    HaveBaseSha { base_sha: String },
    /// The base commit and its tree; next, upload the blob.
    HaveTreeSha { base_sha: String, tree_sha: String },
    /// Base commit, base tree and blob; next, create the new tree.
    HaveBlobSha { base_sha: String, tree_sha: String, blob_sha: String },
    /// Base commit and the new tree; next, create the new commit.
    HaveNewTree { base_sha: String, new_tree_sha: String },
    /// The new commit; next, move the branch ref onto it.
    HaveNewCommit { new_commit_sha: String },
    /// The branch points at the new commit.
    Done { new_commit_sha: String },
}

/// How many of the six steps lie behind a state.
pub open spec fn steps_done(state: AssemblyState) -> int {
    match state {
        AssemblyState::Start => 0,
        AssemblyState::HaveBaseSha { .. } => 1,
        AssemblyState::HaveTreeSha { .. } => 2,
        AssemblyState::HaveBlobSha { .. } => 3,
        AssemblyState::HaveNewTree { .. } => 4,
        AssemblyState::HaveNewCommit { .. } => 5,
        AssemblyState::Done { .. } => 6,
    }
}

/// The request a state calls for: each one is built from the fixed inputs
/// and from SHAs that earlier steps brought back, exactly as the sequence
/// documents — the branch lookup feeds the commit lookup, the base tree and
/// the blob feed the new tree, the new tree and the base commit (as sole
/// parent) feed the new commit, and the new commit moves the ref. A
/// finished assembly calls for nothing.
pub fn next_request(client: &GitHubClient, params: &AssemblyParams, state: &AssemblyState) -> (r:
    Option<HttpRequest>)
    ensures
        match *state {
            AssemblyState::Start => r matches Some(q) && q.method == HttpMethod::Get && q.path@
                == ref_lookup_path(params.owner@, params.repo@, params.branch@) && q.body is None,
            AssemblyState::HaveBaseSha { base_sha } => r matches Some(q) && q.method
                == HttpMethod::Get && q.path@ == commit_lookup_path(
                params.owner@,
                params.repo@,
                base_sha@,
            ) && q.body is None,
            AssemblyState::HaveTreeSha { .. } => r matches Some(q) && q.method == HttpMethod::Post
                && q.path@ == blobs_path(params.owner@, params.repo@) && (q.body matches Some(b)
                && b@ == create_blob_body(params.content@)),
            AssemblyState::HaveBlobSha { tree_sha, blob_sha, .. } => r matches Some(q) && q.method
                == HttpMethod::Post && q.path@ == trees_path(params.owner@, params.repo@) && (
            q.body matches Some(b) && b@ == create_tree_body(
                tree_sha@,
                params.file_path@,
                blob_sha@,
            )),
            AssemblyState::HaveNewTree { base_sha, new_tree_sha } => r matches Some(q) && q.method
                == HttpMethod::Post && q.path@ == commits_path(params.owner@, params.repo@) && (
            q.body matches Some(b) && b@ == create_commit_body(
                params.message@,
                new_tree_sha@,
                base_sha@,
            )),
            AssemblyState::HaveNewCommit { new_commit_sha } => r matches Some(q) && q.method
                == HttpMethod::Patch && q.path@ == ref_update_path(
                params.owner@,
                params.repo@,
                params.branch@,
            ) && (q.body matches Some(b) && b@ == update_ref_body(new_commit_sha@)),
            AssemblyState::Done { .. } => r is None,
        },
{
    match state {
        AssemblyState::Start => Some(
            client.get_base_branch_sha_request(
                params.owner.as_str(),
                params.repo.as_str(),
                params.branch.as_str(),
            ),
        ),
        AssemblyState::HaveBaseSha { base_sha } => Some(
            client.get_latest_tree_sha_request(
                params.owner.as_str(),
                params.repo.as_str(),
                base_sha.as_str(),
            ),
        ),
        AssemblyState::HaveTreeSha { .. } => Some(
            client.create_blob_request(
                params.owner.as_str(),
                params.repo.as_str(),
                params.content.as_str(),
            ),
        ),
        AssemblyState::HaveBlobSha { tree_sha, blob_sha, .. } => Some(
            client.create_tree_request(
                params.owner.as_str(),
                params.repo.as_str(),
                tree_sha.as_str(),
                params.file_path.as_str(),
                blob_sha.as_str(),
            ),
        ),
        AssemblyState::HaveNewTree { base_sha, new_tree_sha } => Some(
            client.create_commit_request(
                params.owner.as_str(),
                params.repo.as_str(),
                params.message.as_str(),
                new_tree_sha.as_str(),
                base_sha.as_str(),
            ),
        ),
        AssemblyState::HaveNewCommit { new_commit_sha } => Some(
            client.update_branch_reference_request(
                params.owner.as_str(),
                params.repo.as_str(),
                params.branch.as_str(),
                new_commit_sha.as_str(),
            ),
        ),
        AssemblyState::Done { .. } => None,
    }
}

/// Feeds one response into the assembly. On success the state advances one
/// step, keeping every SHA a later step still needs and taking in the one
/// the response carried; on failure the error of the step's response
/// handler comes back unchanged. A finished assembly takes no response and
/// stays as it is.
pub fn apply_response(state: AssemblyState, status: u16, body: &str) -> (r: Result<
    AssemblyState,
    GitHubError,
>)
    ensures
        r matches Ok(ns) ==> steps_done(ns) == if state is Done {
            6int
        } else {
            steps_done(state) + 1
        },
        state matches AssemblyState::Start ==> {
            &&& r matches Ok(ns) ==> ns matches AssemblyState::HaveBaseSha { base_sha }
                && field_response_spec(
                Ok(base_sha),
                status,
                body@,
                json_text_field2(body@, "object"@, "sha"@),
                "Failed to extract SHA from response"@,
            )
            &&& r matches Err(e) ==> field_response_spec(
                Err(e),
                status,
                body@,
                json_text_field2(body@, "object"@, "sha"@),
                "Failed to extract SHA from response"@,
            )
        },
        state matches AssemblyState::HaveBaseSha { base_sha: prev } ==> {
            &&& r matches Ok(ns) ==> ns matches AssemblyState::HaveTreeSha { base_sha, tree_sha }
                && base_sha@ == prev@ && field_response_spec(
                Ok(tree_sha),
                status,
                body@,
                json_text_field2(body@, "tree"@, "sha"@),
                "Failed to extract tree SHA from response"@,
            )
            &&& r matches Err(e) ==> field_response_spec(
                Err(e),
                status,
                body@,
                json_text_field2(body@, "tree"@, "sha"@),
                "Failed to extract tree SHA from response"@,
            )
        },
        state matches AssemblyState::HaveTreeSha { base_sha: p1, tree_sha: p2 } ==> {
            &&& r matches Ok(ns) ==> ns matches AssemblyState::HaveBlobSha {
                base_sha,
                tree_sha,
                blob_sha,
            } && base_sha@ == p1@ && tree_sha@ == p2@ && field_response_spec(
                Ok(blob_sha),
                status,
                body@,
                json_text_field(body@, "sha"@),
                "Failed to extract blob SHA from response"@,
            )
            &&& r matches Err(e) ==> field_response_spec(
                Err(e),
                status,
                body@,
                json_text_field(body@, "sha"@),
                "Failed to extract blob SHA from response"@,
            )
        },
        state matches AssemblyState::HaveBlobSha { base_sha: p1, .. } ==> {
            &&& r matches Ok(ns) ==> ns matches AssemblyState::HaveNewTree {
                base_sha,
                new_tree_sha,
            } && base_sha@ == p1@ && field_response_spec(
                Ok(new_tree_sha),
                status,
                body@,
                json_text_field(body@, "sha"@),
                "Failed to extract tree SHA from response"@,
            )
            &&& r matches Err(e) ==> field_response_spec(
                Err(e),
                status,
                body@,
                json_text_field(body@, "sha"@),
                "Failed to extract tree SHA from response"@,
            )
        },
        state matches AssemblyState::HaveNewTree { .. } ==> {
            &&& r matches Ok(ns) ==> ns matches AssemblyState::HaveNewCommit { new_commit_sha }
                && field_response_spec(
                Ok(new_commit_sha),
                status,
                body@,
                json_text_field(body@, "sha"@),
                "Failed to extract commit SHA from response"@,
            )
            &&& r matches Err(e) ==> field_response_spec(
                Err(e),
                status,
                body@,
                json_text_field(body@, "sha"@),
                "Failed to extract commit SHA from response"@,
            )
        },
        state matches AssemblyState::HaveNewCommit { new_commit_sha: prev } ==> {
            &&& r matches Ok(ns) ==> ns matches AssemblyState::Done { new_commit_sha }
                && new_commit_sha@ == prev@ && unit_response_spec(Ok(()), status, body@)
            &&& r matches Err(e) ==> unit_response_spec(Err(e), status, body@)
        },
        state matches AssemblyState::Done { new_commit_sha: prev } ==> r matches Ok(ns)
            && ns matches AssemblyState::Done { new_commit_sha } && new_commit_sha@ == prev@,
{
    match state {
        AssemblyState::Start => match GitHubClient::get_base_branch_sha_response(status, body) {
            Ok(sha) => Ok(AssemblyState::HaveBaseSha { base_sha: sha }),
            Err(e) => Err(e),
        },
        AssemblyState::HaveBaseSha { base_sha } => match GitHubClient::get_latest_tree_sha_response(
            status,
            body,
        ) {
            Ok(sha) => Ok(AssemblyState::HaveTreeSha { base_sha, tree_sha: sha }),
            Err(e) => Err(e),
        },
        AssemblyState::HaveTreeSha { base_sha, tree_sha } => match GitHubClient::create_blob_response(
            status,
            body,
        ) {
            Ok(sha) => Ok(AssemblyState::HaveBlobSha { base_sha, tree_sha, blob_sha: sha }),
            Err(e) => Err(e),
        },
        AssemblyState::HaveBlobSha { base_sha, .. } => match GitHubClient::create_tree_response(
            status,
            body,
        ) {
            Ok(sha) => Ok(AssemblyState::HaveNewTree { base_sha, new_tree_sha: sha }),
            Err(e) => Err(e),
        },
        AssemblyState::HaveNewTree { .. } => match GitHubClient::create_commit_response(
            status,
            body,
        ) {
            Ok(sha) => Ok(AssemblyState::HaveNewCommit { new_commit_sha: sha }),
            Err(e) => Err(e),
        },
        AssemblyState::HaveNewCommit { new_commit_sha } => match GitHubClient::update_branch_reference_response(
            status,
            body,
        ) {
            Ok(_) => Ok(AssemblyState::Done { new_commit_sha }),
            Err(e) => Err(e),
        },
        AssemblyState::Done { new_commit_sha } => Ok(AssemblyState::Done { new_commit_sha }),
    }
}

} // verus!
