use botman::github::data::{GitHubRepo, GitHubRepoId, GitHubRepoIdError};

fn repo(owner: &str, name: &str) -> GitHubRepo {
    GitHubRepo {
        id: 1,
        full_name: GitHubRepoId {
            owner: owner.to_owned(),
            name: name.to_owned(),
        },
    }
}

#[test]
fn git_url_of_a_repository() {
    assert_eq!(
        repo("williamboman", "mason.nvim").as_git_url(),
        "https://github.com/williamboman/mason.nvim.git"
    );
}

#[test]
fn api_url_of_a_repository() {
    assert_eq!(
        repo("williamboman", "mason.nvim").as_api_url(),
        "https://api.github.com/repos/williamboman/mason.nvim"
    );
}

#[test]
fn repo_id_splits_at_the_first_slash() {
    let id = GitHubRepoId::from_str("mason-org/mason-registry/extra").unwrap();
    assert_eq!(id.owner, "mason-org");
    assert_eq!(id.name, "mason-registry/extra");
    assert_eq!(id.to_string(), "mason-org/mason-registry/extra");
}

#[test]
fn repo_id_needs_a_slash() {
    let err = GitHubRepoId::from_str("mason").unwrap_err();
    assert_eq!(err, GitHubRepoIdError::MissingSeparator);
    assert_eq!(err.message(), "Failed to parse GitHubRepoId.");
}
