use cio::applicant::{
    lookup, normalize_row_phone, normalize_status, was_confirmation_sent, Applicant,
    ApplicantSheetColumns, ParseError,
};
use cio::time::UtcTime;

fn columns() -> ApplicantSheetColumns {
    ApplicantSheetColumns {
        timestamp: 0,
        name: 1,
        email: 2,
        location: 3,
        phone: 4,
        github: 5,
        portfolio: 6,
        website: 7,
        linkedin: 8,
        resume: 9,
        materials: 10,
        status: 11,
        sent_email_received: 12,
        value_reflected: 13,
        value_violated: 14,
        value_in_tension_1: 15,
        value_in_tension_2: 16,
    }
}

fn row(cells: &[&str]) -> Vec<String> {
    cells.iter().map(|c| c.to_string()).collect()
}

fn full_row() -> Vec<String> {
    row(&[
        "11/05/2020 10:23:45",
        "Ada Lovelace",
        "ada@example.com",
        "  London, UK ",
        "+44 20 7946 0958",
        "https://gitlab.com/octocat/",
        " HTTPS://Portfolio.example ",
        "https://Ada.example",
        "https://LinkedIn.com/in/ada",
        "https://drive.example/resume",
        "https://drive.example/materials",
        "Status: DECLINED - not a fit",
        "TRUE",
        " Rigor ",
        "Urgency",
        "Candor",
        "Teamwork ",
    ])
}

const MATERIALS: &str = "Oxide Candidate Materials\nWork sample(s): Did the thing.\n\nWriting samples: Wrote the thing.\nAnalysis samples: none\nPresentation samples: slides\nQuestionnaire\nWhy do you want to work for Oxide? Because.";

fn parse(row: &[String], materials: &str) -> Result<Applicant, ParseError> {
    Applicant::parse("Engineering", "sheet-1", &columns(), row, "my resume".to_string(), materials.to_string())
}

#[test]
fn full_row_is_assembled() {
    let a = parse(&full_row(), MATERIALS).unwrap();
    assert_eq!(a.name, "Ada Lovelace");
    assert_eq!(a.email, "ada@example.com");
    assert_eq!(a.role, "Engineering");
    assert_eq!(a.sheet_id, "sheet-1");
    assert_eq!(a.status, "Declined");
    // 10:23:45 at -08:00 is 18:23:45 UTC.
    assert_eq!(a.submitted_time, UtcTime { seconds: 1604600625, nanos: 0 });
    assert_eq!(a.location, "London, UK");
    assert_eq!(a.phone, "+44 20 7946 0958");
    assert_eq!(a.country_code, "gb");
    assert_eq!(a.github, "");
    assert_eq!(a.gitlab, "@octocat");
    assert_eq!(a.portfolio, "https://portfolio.example");
    assert_eq!(a.website, "https://ada.example");
    assert_eq!(a.linkedin, "https://linkedin.com/in/ada");
    assert_eq!(a.resume, "https://drive.example/resume");
    assert_eq!(a.materials, "https://drive.example/materials");
    assert!(a.sent_email_received);
    assert_eq!(a.value_reflected, "rigor");
    assert_eq!(a.value_violated, "urgency");
    assert_eq!(a.values_in_tension, vec!["candor".to_string(), "teamwork".to_string()]);
    assert_eq!(a.resume_contents, "my resume");
    assert_eq!(a.materials_contents, MATERIALS);
    assert_eq!(a.work_samples, "Did the thing.");
    assert_eq!(a.writing_samples, "Wrote the thing.");
    assert_eq!(a.analysis_samples, "none");
    assert_eq!(a.presentation_samples, "slides");
    assert_eq!(a.exploratory_samples, "");
    assert_eq!(a.question_why_oxide, "Because.");
    assert_eq!(a.question_happiest, "");
}

#[test]
fn short_row_takes_the_defaults() {
    let a = parse(&row(&["11/05/2020 10:23:45", "Ada", "ada@example.com"]), "").unwrap();
    assert_eq!(a.status, "Needs to be triaged");
    assert_eq!(a.location, "");
    assert_eq!(a.phone, "");
    assert_eq!(a.country_code, "us");
    assert_eq!(a.github, "");
    assert_eq!(a.gitlab, "");
    assert_eq!(a.linkedin, "");
    assert_eq!(a.resume, "");
    assert!(a.sent_email_received);
    assert!(a.values_in_tension.is_empty());
}

#[test]
fn empty_status_needs_triage() {
    let mut cells = full_row();
    cells[11] = String::new();
    assert_eq!(parse(&cells, MATERIALS).unwrap().status, "Needs to be triaged");
    cells.truncate(11);
    assert_eq!(parse(&cells, MATERIALS).unwrap().status, "Needs to be triaged");
    assert_eq!(normalize_status(None), "Needs to be triaged");
    assert_eq!(normalize_status(Some("   ")), "Needs to be triaged");
}

#[test]
fn status_is_mapped_by_priority() {
    assert_eq!(normalize_status(Some("Status: DECLINED - not a fit")), "Declined");
    assert_eq!(normalize_status(Some("Next Steps: phone screen")), "Next steps");
    assert_eq!(normalize_status(Some("deferred until spring")), "Deferred");
    assert_eq!(normalize_status(Some("HIRED!")), "Hired");
    assert_eq!(normalize_status(Some("  Interviewing ")), "interviewing");
    // More than one keyword: the first in the list decides.
    assert_eq!(normalize_status(Some("hired, then declined")), "Declined");
    assert_eq!(normalize_status(Some("declined; deferred; next steps")), "Next steps");
}

#[test]
fn zero_marks_a_column_that_is_not_there() {
    let mut c = columns();
    c.linkedin = 0;
    c.status = 0;
    c.value_in_tension_1 = 0;
    let a = Applicant::parse("Role", "id", &c, &full_row(), String::new(), String::new()).unwrap();
    assert_eq!(a.linkedin, "");
    assert_eq!(a.status, "Needs to be triaged");
    assert_eq!(a.values_in_tension, vec!["teamwork".to_string()]);
    let cells = full_row();
    assert_eq!(lookup(&cells, 0), None);
    assert_eq!(lookup(&cells, 1), Some("Ada Lovelace"));
    assert_eq!(lookup(&cells, 17), None);
}

#[test]
fn missing_identity_is_an_error() {
    assert_eq!(parse(&row(&["11/05/2020 10:23:45", "Ada"]), ""), Err(ParseError::MissingColumn));
    assert_eq!(parse(&row(&[]), ""), Err(ParseError::MissingColumn));
}

#[test]
fn bad_timestamp_is_an_error() {
    assert_eq!(
        parse(&row(&["yesterday", "Ada", "ada@example.com"]), ""),
        Err(ParseError::InvalidTimestamp)
    );
    assert_eq!(
        parse(&row(&["13/45/2020 10:23:45", "Ada", "ada@example.com"]), MATERIALS),
        Err(ParseError::InvalidTimestamp)
    );
}

#[test]
fn empty_materials_give_empty_fields() {
    let a = parse(&full_row(), "").unwrap();
    for field in [
        &a.work_samples,
        &a.writing_samples,
        &a.analysis_samples,
        &a.presentation_samples,
        &a.exploratory_samples,
        &a.question_technically_challenging,
        &a.question_proud_of,
        &a.question_happiest,
        &a.question_unhappiest,
        &a.question_value_reflected,
        &a.question_value_violated,
        &a.question_values_in_tension,
        &a.question_why_oxide,
    ] {
        assert_eq!(field, "");
    }
}

#[test]
fn assembling_twice_gives_the_same_record() {
    assert_eq!(parse(&full_row(), MATERIALS), parse(&full_row(), MATERIALS));
}

#[test]
fn confirmation_flag() {
    assert!(was_confirmation_sent("TRUE"));
    assert!(was_confirmation_sent(""));
    assert!(!was_confirmation_sent("False"));
    assert!(!was_confirmation_sent("it is FALSE that"));
    let mut cells = full_row();
    cells[12] = "FALSE".to_string();
    assert!(!parse(&cells, "").unwrap().sent_email_received);
}

#[test]
fn fallback_phrasings_are_found() {
    let doc = "Work samples\nshipped a compiler\nExploratory samples\npoked at firmware\nQuestionnaire\n";
    let a = parse(&full_row(), doc).unwrap();
    assert_eq!(a.work_samples, "shipped a compiler");
    assert_eq!(a.exploratory_samples, "poked at firmware");
}

#[test]
fn questions_are_extracted() {
    let doc = "What work have you found most technically challenging in your career and why?\nThe hard one.\nWhat work have you done that you were particularly proud of and why?\nThe proud one.\nWhen have you been happiest in your professional career and why?\nThen.\nWhen have you been unhappiest in your professional career and why?\nNever.\nFor one of Oxide's values, describe an example of how it was reflected in a particular body of your work.\nReflected.\nFor one of Oxide's values, describe an example of how it was violated in your organization or work.\nViolated.\nFor a pair of Oxide's values, describe a time in which the two values came into tension for you or your work, and how you resolved it.\nTension.\nWhy do you want to work for Oxide?\nBecause.";
    let a = parse(&full_row(), doc).unwrap();
    assert_eq!(a.question_technically_challenging, "The hard one.");
    assert_eq!(a.question_proud_of, "The proud one.");
    assert_eq!(a.question_happiest, "Then.");
    assert_eq!(a.question_unhappiest, "Never.");
    assert_eq!(a.question_value_reflected, "Reflected.");
    assert_eq!(a.question_value_violated, "Violated.");
    assert_eq!(a.question_values_in_tension, "Tension.");
    assert_eq!(a.question_why_oxide, "Because.");
}

#[test]
fn every_field_rule_can_be_carried_out() {
    // Nothing matches, so every pair of every rule is asked.
    let a = parse(&full_row(), "nothing of interest").unwrap();
    assert_eq!(a.work_samples, "");
    assert_eq!(a.question_why_oxide, "");
}

#[test]
fn invalid_number_is_kept_in_the_record() {
    let mut cells = full_row();
    cells[3] = "  Somewhere ".to_string();
    cells[4] = "555-123-4567".to_string();
    let verdict = normalize_row_phone(&columns(), &cells);
    assert!(verdict.was_read && !verdict.is_valid);
    let a = parse(&cells, "").unwrap();
    assert_eq!(a.phone, "+1 555-123-4567");
    assert_eq!(a.phone, verdict.phone);
    assert_eq!(a.country_code, verdict.country_code);
    let london = normalize_row_phone(&columns(), &full_row());
    assert!(london.was_read && london.is_valid);
    assert_eq!(london.country_code, "gb");
}
