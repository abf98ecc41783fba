use cio::analytics::{AuthUserRecord, NewPageView};
use cio::github::{GitHubUser, GithubRepo, InvalidDate, Repo};
use cio::mailing_list::MailingListSignup;
use cio::rfd::RFD;
use cio::slack::{context, message, section, MessageBlockType};
use cio::time::{
    format_day, humanize_elapsed, parse_day, parse_rfc3339, parse_sheet_timestamp,
    seconds_between, Date, UtcTime,
};

fn at(seconds: i64) -> UtcTime {
    UtcTime { seconds, nanos: 0 }
}

#[test]
fn sheet_timestamps_are_read_at_minus_eight() {
    assert_eq!(parse_sheet_timestamp("01/01/1970 00:00:00"), Some(at(8 * 3600)));
    assert_eq!(parse_sheet_timestamp("11/05/2020 10:23:45"), Some(at(1604600625)));
    assert_eq!(parse_sheet_timestamp("2020-11-05 10:23:45"), None);
    assert_eq!(parse_sheet_timestamp(""), None);
}

#[test]
fn rfc3339_is_read() {
    assert_eq!(parse_rfc3339("1970-01-01T00:00:01Z"), Some(at(1)));
    assert_eq!(
        parse_rfc3339("2020-11-05T10:23:45.5+01:00"),
        Some(UtcTime { seconds: 1604568225, nanos: 500_000_000 })
    );
    assert_eq!(parse_rfc3339("yesterday"), None);
}

#[test]
fn days_are_read_and_written() {
    assert_eq!(parse_day("02/29/2020"), Some(Date { year: 2020, month: 2, day: 29 }));
    assert_eq!(parse_day("02/30/2020"), None);
    assert_eq!(format_day(Date { year: 2020, month: 2, day: 9 }), Some("02/09/2020".to_string()));
    assert_eq!(format_day(Date { year: 2021, month: 2, day: 29 }), None);
}

#[test]
fn elapsed_time_is_never_ahead() {
    assert_eq!(seconds_between(at(100), at(160)), -60);
    assert_eq!(seconds_between(at(160), at(100)), -60);
    assert_eq!(seconds_between(at(5), at(5)), 0);
    let half = UtcTime { seconds: 10, nanos: 500_000_000 };
    assert_eq!(seconds_between(at(12), half), -1);
    assert_eq!(seconds_between(half, at(12)), -1);
    assert_eq!(seconds_between(at(i64::MIN), at(i64::MAX)), -9_223_372_036_854_775);
    assert_eq!(seconds_between(at(i64::MAX), at(i64::MIN)), -9_223_372_036_854_775);
}

#[test]
fn elapsed_time_in_words() {
    assert_eq!(humanize_elapsed(at(0), at(5)), "now");
    assert_eq!(humanize_elapsed(at(0), at(30)), "30 seconds ago");
    assert_eq!(humanize_elapsed(at(30), at(0)), "30 seconds ago");
    assert_eq!(humanize_elapsed(at(0), at(3 * 86400)), "3 days ago");
    assert_eq!(humanize_elapsed(at(0), at(3600)), "an hour ago");
}

fn rfd() -> RFD {
    RFD {
        number: 42,
        number_string: String::new(),
        title: "Naming things".to_string(),
        name: String::new(),
        state: "discussion".to_string(),
        link: "https://github.com/x/rfd/tree/0042".to_string(),
        short_link: String::new(),
        rendered_link: String::new(),
        discussion: String::new(),
        authors: "A".to_string(),
        html: String::new(),
        content: String::new(),
        sha: "abc".to_string(),
        commit_date: at(7),
    }
}

#[test]
fn rfd_expands() {
    let mut r = rfd();
    r.expand();
    assert_eq!(r.number_string, "0042");
    assert_eq!(r.name, "RFD 42 Naming things");
    assert_eq!(r.short_link, "https://42.rfd.oxide.computer");
    assert_eq!(r.rendered_link, "https://rfd.shared.oxide.computer/rfd/0042");
    assert_eq!(r.title, "Naming things");
    assert_eq!(r.sha, "abc");
    let once = r.clone();
    r.expand();
    assert_eq!(r, once);
    let mut big = rfd();
    big.number = 12345;
    big.expand();
    assert_eq!(big.number_string, "12345");
}

#[test]
fn rfd_message() {
    let mut r = rfd();
    r.expand();
    assert_eq!(
        r.as_slack_msg(),
        "RFD 42 Naming things (_*discussion*_) <https://42.rfd.oxide.computer|github> <https://rfd.shared.oxide.computer/rfd/0042|rendered>"
    );
    r.discussion = "https://github.com/x/rfd/pull/7".to_string();
    assert_eq!(
        r.as_slack_msg(),
        "RFD 42 Naming things (_*discussion*_) <https://42.rfd.oxide.computer|github> <https://rfd.shared.oxide.computer/rfd/0042|rendered> <https://github.com/x/rfd/pull/7|discussion>"
    );
}

fn page_view() -> NewPageView {
    NewPageView {
        time: at(1),
        domain: "docs.example.com".to_string(),
        path: "//guide/intro".to_string(),
        user_email: "ada@example.com".to_string(),
        page_link: String::new(),
        link_to_auth_user: vec!["old".to_string()],
    }
}

#[test]
fn page_link_is_set() {
    let mut v = page_view();
    v.set_page_link();
    assert_eq!(v.page_link, "https://docs.example.com/guide/intro");
    v.path = "plain".to_string();
    v.set_page_link();
    assert_eq!(v.page_link, "https://docs.example.com/plain");
}

#[test]
fn page_view_is_linked_to_the_first_user_with_its_email() {
    let users = vec![
        AuthUserRecord { id: "rec1".into(), email: "bob@example.com".into() },
        AuthUserRecord { id: "rec2".into(), email: "ada@example.com".into() },
        AuthUserRecord { id: "rec3".into(), email: "ada@example.com".into() },
    ];
    let mut v = page_view();
    v.update_airtable_record(&users);
    assert_eq!(v.link_to_auth_user, vec!["rec2".to_string()]);
    let mut w = page_view();
    w.user_email = "eve@example.com".to_string();
    w.update_airtable_record(&users);
    assert_eq!(w.link_to_auth_user, vec!["old".to_string()]);
}

fn github_repo() -> GithubRepo {
    let s = |x: &str| x.to_string();
    GithubRepo {
        id: 7,
        owner: GitHubUser { login: s("oxide"), id: 3, ..Default::default() },
        name: s("cio"),
        full_name: s("oxide/cio"),
        description: Some(s("helpers")),
        private: false,
        fork: true,
        url: s("u"),
        html_url: s("h"),
        archive_url: s("a"),
        assignees_url: s("b"),
        blobs_url: s("c"),
        branches_url: s("d"),
        clone_url: s("e"),
        collaborators_url: s("f"),
        comments_url: s("g"),
        commits_url: s("h2"),
        compare_url: s("i"),
        contents_url: s("j"),
        contributors_url: s("k"),
        deployments_url: s("l"),
        downloads_url: s("m"),
        events_url: s("n"),
        forks_url: s("o"),
        git_commits_url: s("p"),
        git_refs_url: s("q"),
        git_tags_url: s("r"),
        git_url: s("s"),
        hooks_url: s("t"),
        issue_comment_url: s("u2"),
        issue_events_url: s("v"),
        issues_url: s("w"),
        keys_url: s("x"),
        labels_url: s("y"),
        languages_url: s("z"),
        merges_url: s("aa"),
        milestones_url: s("ab"),
        mirror_url: None,
        notifications_url: s("ac"),
        pulls_url: s("ad"),
        releases_url: s("ae"),
        ssh_url: s("af"),
        stargazers_url: s("ag"),
        statuses_url: s("ah"),
        subscribers_url: s("ai"),
        subscription_url: s("aj"),
        svn_url: s("ak"),
        tags_url: s("al"),
        teams_url: s("am"),
        trees_url: s("an"),
        homepage: None,
        language: Some(s("Rust")),
        forks_count: 1,
        stargazers_count: 2,
        watchers_count: 3,
        size: 4,
        default_branch: s("main"),
        open_issues_count: 5,
        has_issues: true,
        has_wiki: false,
        has_pages: false,
        has_downloads: true,
        archived: false,
        pushed_at: s("2020-11-05T18:23:45Z"),
        created_at: s("1970-01-01T00:00:00Z"),
        updated_at: s("1970-01-01T00:01:00+00:00"),
    }
}

#[test]
fn repo_record_keeps_the_fields_and_reads_the_dates() {
    let repo = Repo::new(github_repo()).unwrap();
    assert_eq!(repo.id, 7);
    assert_eq!(repo.owner.login, "oxide");
    assert_eq!(repo.full_name, "oxide/cio");
    assert_eq!(repo.description, Some("helpers".to_string()));
    assert_eq!(repo.language, Some("Rust".to_string()));
    assert_eq!(repo.trees_url, "an");
    assert_eq!(repo.open_issues_count, 5);
    assert!(repo.fork && repo.has_issues && !repo.archived);
    assert_eq!(repo.pushed_at, at(1604600625));
    assert_eq!(repo.created_at, at(0));
    assert_eq!(repo.updated_at, at(60));
}

#[test]
fn repo_record_names_the_first_bad_date() {
    let mut r = github_repo();
    r.updated_at = "soon".to_string();
    assert_eq!(Repo::new(r.clone()), Err(InvalidDate::UpdatedAt));
    r.created_at = "never".to_string();
    assert_eq!(Repo::new(r.clone()), Err(InvalidDate::CreatedAt));
    r.pushed_at = String::new();
    assert_eq!(Repo::new(r), Err(InvalidDate::PushedAt));
}

fn signup() -> MailingListSignup {
    let mut s = MailingListSignup::empty_at(at(1000));
    s.email = "ada@example.com".to_string();
    s.name = "Ada Lovelace".to_string();
    s
}

#[test]
fn default_signup_is_empty() {
    let s = MailingListSignup::default();
    assert_eq!(s.email, "");
    assert_eq!(s.name, "");
    assert!(!s.wants_newsletter && !s.wants_podcast_updates && !s.wants_product_updates);
    assert!(s.tags.is_empty() && s.link_to_people.is_empty());
    assert!(s.date_added.seconds > 1_600_000_000);
    let e = MailingListSignup::empty_at(at(5));
    assert_eq!((e.date_added, e.date_optin, e.date_last_changed), (at(5), at(5), at(5)));
}

#[test]
fn signup_message_without_details() {
    let s = signup();
    assert_eq!(s.human_duration_at(at(1000 + 7200)), "2 hours ago");
    let m = s.slack_msg_with("2 hours ago");
    let want = message(vec![
        section("*Ada Lovelace* <mailto:ada@example.com|ada@example.com>".to_string()),
        cio::slack::empty(),
        context("podcast updates: _false_ | newsletter: _false_ | product updates: _false_".to_string()),
        context("subscribed to mailing list 2 hours ago".to_string()),
    ]);
    assert_eq!(m, want);
    assert_eq!(m.channel, None);
    let blocks = m.blocks.unwrap();
    assert_eq!(blocks[1].block_type, MessageBlockType::Section);
    assert_eq!(blocks[1].text, None);
    assert_eq!(blocks[2].block_type, MessageBlockType::Context);
}

#[test]
fn signup_message_with_details() {
    let mut s = signup();
    s.company = "Analytical Engines".to_string();
    s.interest = "racks".to_string();
    s.wants_newsletter = true;
    let m = s.slack_msg_with("now");
    let want = message(vec![
        section("*Ada Lovelace* <mailto:ada@example.com|ada@example.com>".to_string()),
        section("\n>racks".to_string()),
        context("podcast updates: _false_ | newsletter: _true_ | product updates: _false_".to_string()),
        context("works at Analytical Engines | subscribed to mailing list now".to_string()),
    ]);
    assert_eq!(m, want);
    let live = s.as_slack_msg();
    assert_eq!(live.blocks.unwrap().len(), 4);
}
