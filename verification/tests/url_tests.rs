use repo_view::urls::{host_of_url, is_https_url};

#[test]
fn host_of_scp_like_url() {
    assert_eq!(host_of_url(&String::from("git@github.com:owner/repo.git")), String::from("github.com"));
}

#[test]
fn host_is_empty_without_user_part() {
    assert_eq!(host_of_url(&String::from("https://github.com/owner/repo")), String::from(""));
}

#[test]
fn host_stops_at_second_at_sign() {
    assert_eq!(host_of_url(&String::from("a@b@c:d")), String::from("b"));
}

#[test]
fn host_runs_to_end_without_colon() {
    assert_eq!(host_of_url(&String::from("git@host")), String::from("host"));
}

#[test]
fn host_of_empty_url_is_empty() {
    assert_eq!(host_of_url(&String::new()), String::from(""));
}

#[test]
fn https_scheme_is_recognized() {
    assert!(is_https_url(&String::from("https://github.com/owner/repo")));
}

#[test]
fn ssh_url_is_not_https() {
    assert!(!is_https_url(&String::from("git@github.com:owner/repo.git")));
}

#[test]
fn plain_http_is_not_https() {
    assert!(!is_https_url(&String::from("http://github.com/owner/repo")));
}

#[test]
fn short_url_is_not_https() {
    assert!(!is_https_url(&String::from("https:/")));
}

#[test]
fn host_is_empty_when_at_sign_ends_url() {
    assert_eq!(host_of_url(&String::from("git@")), String::from(""));
}

#[test]
fn colon_before_at_sign_does_not_end_host() {
    assert_eq!(host_of_url(&String::from("x:y@host:path")), String::from("host"));
}
