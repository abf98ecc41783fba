use cio::handle::normalize_handle;

fn handles(raw: &str) -> (String, String) {
    normalize_handle(raw)
}

#[test]
fn gitlab_url_in_the_github_field() {
    assert_eq!(handles("https://gitlab.com/octocat/"), (String::new(), "@octocat".to_string()));
}

#[test]
fn github_urls_and_bare_handles() {
    let expected = ("@octocat".to_string(), String::new());
    assert_eq!(handles("https://github.com/octocat"), expected);
    assert_eq!(handles("http://github.com/octocat/"), expected);
    assert_eq!(handles("https://www.github.com/Octocat"), expected);
    assert_eq!(handles("  @OctoCat  "), expected);
    assert_eq!(handles("octocat"), expected);
    assert_eq!(handles("@@octocat//"), expected);
}

#[test]
fn repeated_host_prefix_is_taken_off_each_time() {
    assert_eq!(
        handles("https://github.com/https://github.com/octocat"),
        ("@octocat".to_string(), String::new())
    );
}

#[test]
fn blank_field_gives_no_handle() {
    assert_eq!(handles(""), (String::new(), String::new()));
    assert_eq!(handles("  \t\n"), (String::new(), String::new()));
}

#[test]
fn never_both_handles() {
    for raw in ["", "x", "https://gitlab.com/a", "https://github.com/b", "@", "/", "https://gitlab.com"] {
        let (github, gitlab) = handles(raw);
        assert!(github.is_empty() || gitlab.is_empty());
        if !raw.trim().is_empty() {
            assert!(github.is_empty() != gitlab.is_empty());
        }
        assert!(github.is_empty() || github.starts_with('@'));
        assert!(gitlab.is_empty() || gitlab.starts_with('@'));
    }
}

#[test]
fn gitlab_host_without_slash_still_counts() {
    // The host alone marks GitLab; only the prefix with its slash is taken off.
    assert_eq!(handles("https://gitlab.com"), (String::new(), "@https://gitlab.com".to_string()));
}

#[test]
fn lowercase_is_applied() {
    // Would fail if the text were handed on as entered.
    assert_eq!(handles("HTTPS://GITHUB.COM/OctoCat"), ("@octocat".to_string(), String::new()));
}
