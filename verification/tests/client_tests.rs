use github_rs::client::{GitHubClient, HttpMethod};
use github_rs::errors::GitHubError;

fn json(text: &str) -> serde_json::Value {
    serde_json::from_str(text).expect("test JSON must parse")
}

#[test]
fn test_github_client_creation() {
    let token = "test_token".to_string();
    let client = GitHubClient::new(token.clone());
    assert_eq!(client.token.as_str(), token);
    assert_eq!(client.base_url, "https://api.github.com");
}

#[test]
fn test_set_base_url_and_url() {
    let mut client = GitHubClient::new("test_token".to_string());
    client.set_base_url("http://127.0.0.1:8080".to_string());
    let url = client.url("/repos/owner/repo/git/refs");
    assert_eq!(url, "http://127.0.0.1:8080/repos/owner/repo/git/refs");
}

#[test]
fn test_get_user_repos_request() {
    let client = GitHubClient::new("test_token".to_string());
    let request = client.get_user_repos_request();
    assert_eq!(request.method, HttpMethod::Get);
    assert_eq!(request.path, "/user/repos");
    assert!(request.body.is_none());
}

#[test]
fn test_get_base_branch_sha() {
    let client = GitHubClient::new("test_token".to_string());
    let request = client.get_base_branch_sha_request("owner", "repo", "main");
    assert_eq!(request.method, HttpMethod::Get);
    assert_eq!(request.path, "/repos/owner/repo/git/ref/heads/main");
    assert!(request.body.is_none());

    let body = "{\"ref\": \"refs/heads/main\", \"object\": {\"sha\": \"6dcb09b5b57875f334f61aebed695e2e4193db5e\", \"type\": \"commit\", \"url\": \"\"}}";
    let result = GitHubClient::get_base_branch_sha_response(200, body);
    assert_eq!(result.unwrap(), "6dcb09b5b57875f334f61aebed695e2e4193db5e");
}

#[test]
fn test_get_base_branch_sha_missing_field() {
    let result = GitHubClient::get_base_branch_sha_response(200, "{\"ref\": \"refs/heads/main\"}");
    match result {
        Err(GitHubError::ParseError(m)) => {
            assert_eq!(m, "Failed to extract SHA from response");
        }
        other => panic!("expected a parse error, got {:?}", other),
    }
}

#[test]
fn test_get_404_carries_status() {
    let result =
        GitHubClient::get_base_branch_sha_response(404, "{\"message\": \"Not Found\"}");
    let error = result.expect_err("a 404 must fail");
    assert_eq!(error.status(), Some(404));
    match error {
        GitHubError::ApiError { status, message } => {
            assert_eq!(status, 404);
            assert_eq!(message, "Not Found");
        }
        other => panic!("expected an API error, got {:?}", other),
    }
}

#[test]
fn test_error_default_message() {
    let result = GitHubClient::get_base_branch_sha_response(500, "{}");
    match result {
        Err(GitHubError::ApiError { status, message }) => {
            assert_eq!(status, 500);
            assert_eq!(message, "Unknown error");
        }
        other => panic!("expected an API error, got {:?}", other),
    }
}

#[test]
fn test_non_json_body() {
    let result = GitHubClient::get_base_branch_sha_response(502, "<html>Bad Gateway</html>");
    match result {
        Err(GitHubError::RequestError { status }) => assert_eq!(status, Some(502)),
        other => panic!("expected a request error, got {:?}", other),
    }
}

#[test]
fn test_error_describe() {
    let error = GitHubError::ApiError { status: 422, message: "Validation failed".to_string() };
    assert_eq!(error.describe(), "Request failed with status 422: Validation failed");
    assert_eq!(error.status(), Some(422));

    let error = GitHubError::ParseError("Failed to extract SHA from response".to_string());
    assert_eq!(error.describe(), "Failed to parse response: Failed to extract SHA from response");
    assert_eq!(error.status(), None);

    let error = GitHubError::RequestError { status: None };
    assert_eq!(error.describe(), "HTTP request failed");
    assert_eq!(error.status(), None);
}

#[test]
fn test_create_branch() {
    let client = GitHubClient::new("test_token".to_string());
    let request = client.create_branch_request(
        "owner",
        "repo",
        "new-feature",
        "6dcb09b5b57875f334f61aebed695e2e4193db5e",
    );
    assert_eq!(request.method, HttpMethod::Post);
    assert_eq!(request.path, "/repos/owner/repo/git/refs");
    let expected = json("{\"ref\": \"refs/heads/new-feature\", \"sha\": \"6dcb09b5b57875f334f61aebed695e2e4193db5e\"}");
    assert_eq!(json(request.body.as_deref().unwrap()), expected);

    let result = GitHubClient::create_branch_response(
        201,
        "{\"ref\": \"refs/heads/new-feature\", \"object\": {\"sha\": \"6dcb09b5b57875f334f61aebed695e2e4193db5e\"}}",
    );
    assert!(result.is_ok());
}

#[test]
fn test_create_branch_conflict() {
    let result = GitHubClient::create_branch_response(
        422,
        "{\"message\": \"Reference already exists\"}",
    );
    match result {
        Err(GitHubError::ApiError { status, message }) => {
            assert_eq!(status, 422);
            assert_eq!(message, "Reference already exists");
        }
        other => panic!("expected an API error, got {:?}", other),
    }
}

#[test]
fn test_get_latest_tree_sha() {
    let client = GitHubClient::new("test_token".to_string());
    let request = client.get_latest_tree_sha_request("owner", "repo", "abc123");
    assert_eq!(request.method, HttpMethod::Get);
    assert_eq!(request.path, "/repos/owner/repo/git/commits/abc123");

    let result = GitHubClient::get_latest_tree_sha_response(
        200,
        "{\"sha\": \"abc123\", \"tree\": {\"sha\": \"def456\"}}",
    );
    assert_eq!(result.unwrap(), "def456");
}

#[test]
fn test_create_blob() {
    let client = GitHubClient::new("test_token".to_string());
    let request = client.create_blob_request("owner", "repo", "Hello, World!");
    assert_eq!(request.method, HttpMethod::Post);
    assert_eq!(request.path, "/repos/owner/repo/git/blobs");
    let expected = json("{\"content\": \"Hello, World!\", \"encoding\": \"utf-8\"}");
    assert_eq!(json(request.body.as_deref().unwrap()), expected);

    let result = GitHubClient::create_blob_response(201, "{\"sha\": \"b1\"}");
    assert_eq!(result.unwrap(), "b1");
}

#[test]
fn test_create_blob_content_escaping() {
    let client = GitHubClient::new("test_token".to_string());
    let content = "line \"one\"\n\tback\\slash\r\u{1}end";
    let request = client.create_blob_request("owner", "repo", content);
    let value = json(request.body.as_deref().unwrap());
    assert_eq!(value["content"].as_str().unwrap(), content);
    assert_eq!(value["encoding"].as_str().unwrap(), "utf-8");
}

#[test]
fn test_create_tree() {
    let client = GitHubClient::new("test_token".to_string());
    let request = client.create_tree_request("owner", "repo", "t0", "example/test.txt", "b1");
    assert_eq!(request.method, HttpMethod::Post);
    assert_eq!(request.path, "/repos/owner/repo/git/trees");
    let expected = json("{\"base_tree\": \"t0\", \"tree\": [{\"path\": \"example/test.txt\", \"mode\": \"100644\", \"type\": \"blob\", \"sha\": \"b1\"}]}");
    assert_eq!(json(request.body.as_deref().unwrap()), expected);

    let result = GitHubClient::create_tree_response(201, "{\"sha\": \"t1\"}");
    assert_eq!(result.unwrap(), "t1");
}

#[test]
fn test_create_commit() {
    let client = GitHubClient::new("test_token".to_string());
    let request = client.create_commit_request("owner", "repo", "Add test.txt", "t1", "s0");
    assert_eq!(request.method, HttpMethod::Post);
    assert_eq!(request.path, "/repos/owner/repo/git/commits");
    let expected = json("{\"message\": \"Add test.txt\", \"tree\": \"t1\", \"parents\": [\"s0\"]}");
    assert_eq!(json(request.body.as_deref().unwrap()), expected);

    let result = GitHubClient::create_commit_response(201, "{\"sha\": \"c1\"}");
    assert_eq!(result.unwrap(), "c1");
}

#[test]
fn test_update_branch_reference() {
    let client = GitHubClient::new("test_token".to_string());
    let request = client.update_branch_reference_request("owner", "repo", "main", "c1");
    assert_eq!(request.method, HttpMethod::Patch);
    assert_eq!(request.path, "/repos/owner/repo/git/refs/heads/main");
    let expected = json("{\"sha\": \"c1\", \"force\": false}");
    assert_eq!(json(request.body.as_deref().unwrap()), expected);

    let result = GitHubClient::update_branch_reference_response(200, "{\"ref\": \"refs/heads/main\"}");
    assert!(result.is_ok());
}

#[test]
fn test_create_pull_request() {
    let client = GitHubClient::new("test_token".to_string());
    let request = client.create_pull_request_request(
        "owner",
        "repo",
        "main",
        "feature-branch",
        "テスト PR",
        "PR の本文",
    );
    assert_eq!(request.method, HttpMethod::Post);
    assert_eq!(request.path, "/repos/owner/repo/pulls");
    let expected = json("{\"title\": \"テスト PR\", \"body\": \"PR の本文\", \"base\": \"main\", \"head\": \"feature-branch\"}");
    assert_eq!(json(request.body.as_deref().unwrap()), expected);

    let result =
        GitHubClient::create_pull_request_response(201, "{\"number\": 1, \"state\": \"open\"}");
    assert!(result.is_ok());
}
