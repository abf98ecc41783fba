use cio::applicant::{Applicant, ApplicantSheetColumns};
use cio::applicant_messages::{append_account, append_labelled, append_tensions, bare};
use cio::slack::{context, message, section};
use cio::time::UtcTime;

fn applicant() -> Applicant {
    let columns = ApplicantSheetColumns {
        timestamp: 0,
        name: 1,
        email: 2,
        location: 3,
        phone: 4,
        github: 5,
        portfolio: 6,
        website: 7,
        linkedin: 8,
        resume: 9,
        materials: 10,
        status: 11,
        sent_email_received: 12,
        value_reflected: 13,
        value_violated: 14,
        value_in_tension_1: 15,
        value_in_tension_2: 16,
    };
    let row: Vec<String> = [
        "11/05/2020 10:23:45",
        "Ada Lovelace",
        "ada@example.com",
        "London, UK",
        "+44 20 7946 0958",
        "@ada",
        "https://p.example",
        "https://w.example",
        "https://l.example",
        "https://r.example",
        "https://m.example",
        "next steps",
        "true",
        "rigor",
        "urgency",
        "candor",
        "teamwork",
    ]
    .iter()
    .map(|c| c.to_string())
    .collect();
    Applicant::parse("Engineering", "sheet-1", &columns, &row, String::new(), String::new()).unwrap()
}

fn bare_applicant() -> Applicant {
    let mut a = applicant();
    a.location = String::new();
    a.phone = String::new();
    a.github = String::new();
    a.gitlab = String::new();
    a.linkedin = String::new();
    a.portfolio = String::new();
    a.website = String::new();
    a.status = String::new();
    a.value_reflected = String::new();
    a.value_violated = String::new();
    a.values_in_tension = Vec::new();
    a
}

#[test]
fn full_chat_message() {
    let a = applicant();
    let want = message(vec![
        section("*Ada Lovelace*  <mailto:ada@example.com|ada@example.com>  London, UK".to_string()),
        context("<https://r.example|resume> | <https://m.example|materials> | <tel:+44 20 7946 0958|+44 20 7946 0958> | <https://github.com/ada|github:@ada> | <https://l.example|linkedin> | <https://p.example|portfolio> | <https://w.example|website>".to_string()),
        context("values reflected: *rigor* | violated: *urgency* | in tension: *candor* *& teamwork*".to_string()),
        context("<https://docs.google.com/spreadsheets/d/sheet-1|Engineering> Applicant | applied 3 days ago | status: *Next steps*".to_string()),
    ]);
    assert_eq!(a.slack_msg_with("3 days ago"), want);
}

#[test]
fn bare_chat_message() {
    let a = bare_applicant();
    let want = message(vec![
        section("*Ada Lovelace*  <mailto:ada@example.com|ada@example.com>".to_string()),
        context("<https://r.example|resume> | <https://m.example|materials>".to_string()),
        context("values not yet populated".to_string()),
        context("<https://docs.google.com/spreadsheets/d/sheet-1|Engineering> Applicant | applied now".to_string()),
    ]);
    assert_eq!(a.slack_msg_with("now"), want);
}

#[test]
fn gitlab_account_in_the_message() {
    let mut a = bare_applicant();
    a.gitlab = "@ada".to_string();
    assert_eq!(
        a.info_msg(),
        "<https://r.example|resume> | <https://m.example|materials> | <https://gitlab.com/ada|gitlab:@ada>"
    );
}

#[test]
fn values_message_parts() {
    let mut a = bare_applicant();
    a.value_violated = "urgency".to_string();
    assert_eq!(a.values_msg(), " | violated: *urgency*");
    a.value_violated = String::new();
    a.values_in_tension = vec!["candor".to_string()];
    assert_eq!(a.values_msg(), " | in tension: *candor*");
    a.values_in_tension.push("rigor".to_string());
    a.values_in_tension.push("thrift".to_string());
    assert_eq!(a.values_msg(), " | in tension: *candor* *& rigor* *& thrift*");
}

#[test]
fn time_since_the_application() {
    let a = applicant();
    let then = a.submitted_time;
    assert_eq!(a.human_duration_at(UtcTime { seconds: then.seconds + 3 * 86400, nanos: 0 }), "3 days ago");
    assert_eq!(a.human_duration_at(then), "now");
    assert!(a.human_duration().ends_with("years ago"));
    let live = a.as_slack_msg();
    assert_eq!(live.blocks.unwrap().len(), 4);
}

#[test]
fn full_notification_email() {
    let a = applicant();
    let want = "## Applicant Information for Engineering\n\nSubmitted 3 days ago\nName: Ada Lovelace\nEmail: ada@example.com\nLocation: London, UK\nPhone: +44 20 7946 0958\nGitHub: @ada (https://github.com/ada)\nLinkedIn: https://l.example\nPortfolio: https://p.example\nWebsite: https://w.example\nResume: https://r.example\nOxide Candidate Materials: https://m.example\n\n## Reminder\n\nTo view the all the candidates refer to the following Google spreadsheets:\n\n- Engineering Applications: https://applications-engineering.corp.oxide.computer\n- Product Engineering and Design Applications: https://applications-product.corp.oxide.computer\n- Technical Program Manager Applications: https://applications-tpm.corp.oxide.computer\n";
    assert_eq!(a.notification_email_with("3 days ago"), want);
    assert!(a.as_company_notification_email().starts_with("## Applicant Information for Engineering\n\nSubmitted "));
}

#[test]
fn bare_notification_email() {
    let mut a = bare_applicant();
    a.gitlab = "@ada".to_string();
    let want = "## Applicant Information for Engineering\n\nSubmitted now\nName: Ada Lovelace\nEmail: ada@example.com\nGitLab: @ada (https://gitlab.com/ada)\nResume: https://r.example\nOxide Candidate Materials: https://m.example\n\n## Reminder\n\nTo view the all the candidates refer to the following Google spreadsheets:\n\n- Engineering Applications: https://applications-engineering.corp.oxide.computer\n- Product Engineering and Design Applications: https://applications-product.corp.oxide.computer\n- Technical Program Manager Applications: https://applications-tpm.corp.oxide.computer\n";
    assert_eq!(a.notification_email_with("now"), want);
}

#[test]
fn message_helpers() {
    let mut s = "x".to_string();
    append_labelled(&mut s, "[", "", "]");
    assert_eq!(s, "x");
    append_labelled(&mut s, "[", "v", "]");
    assert_eq!(s, "x[v]");
    append_account(&mut s, "h.example", "tag", "@@me");
    assert_eq!(s, "x[v] | <https://h.example/me|tag:@@me>");
    append_tensions(&mut s, &Vec::new());
    assert_eq!(s, "x[v] | <https://h.example/me|tag:@@me>");
    assert_eq!(bare("@a@"), "a@");
}
