use gswr::remote::{owner_repo_from_url, OwnerRepoError};

fn parse(url: &str) -> Result<(String, String), OwnerRepoError> {
    owner_repo_from_url(url)
}

#[test]
fn ssh_url() {
    assert_eq!(parse("git@github.com:lethib/gswr.git"), Ok(("lethib".to_string(), "gswr".to_string())));
}

#[test]
fn https_url() {
    assert_eq!(
        parse("https://github.com/lethib/gswr.git"),
        Ok(("lethib".to_string(), "gswr".to_string()))
    );
    assert_eq!(parse("https://github.com/lethib/gswr"), Ok(("lethib".to_string(), "gswr".to_string())));
}

#[test]
fn every_trailing_git_is_removed() {
    assert_eq!(parse("git@github.com:o/r.git.git"), Ok(("o".to_string(), "r".to_string())));
}

#[test]
fn repo_keeps_further_slashes() {
    assert_eq!(parse("https://github.com/o/r/extra"), Ok(("o".to_string(), "r/extra".to_string())));
}

#[test]
fn non_github_remote_has_no_path() {
    assert_eq!(parse("https://gitlab.com/o/r.git"), Err(OwnerRepoError::NoPathFound));
    assert_eq!(OwnerRepoError::NoPathFound.message(), "no_path_found");
}

#[test]
fn path_without_slash_has_no_repo() {
    assert_eq!(parse("git@github.com:lonely.git"), Err(OwnerRepoError::NoRepoNameFound));
    assert_eq!(OwnerRepoError::NoRepoNameFound.message(), "no_repo_name_found");
}

#[test]
fn field_ends_at_next_host_mention() {
    assert_eq!(
        parse("git@github.com:o/rgithub.com:x"),
        Ok(("o".to_string(), "r".to_string()))
    );
}

#[test]
fn ssh_form_wins_over_https_form() {
    assert_eq!(
        parse("https://github.com/a/b github.com:c/d"),
        Ok(("c".to_string(), "d".to_string()))
    );
}

#[test]
fn unicode_owner() {
    assert_eq!(parse("git@github.com:é/ü.git"), Ok(("é".to_string(), "ü".to_string())));
}
