use cio::journal_clubs::{
    get_meetings_from_repo, meeting_from_record, meetings_from_records, parse_papers, Meeting,
    MeetingsError, Paper,
};
use cio::slack::{context, message, section};
use cio::text::chars_of;
use cio::time::Date;

fn paper(title: &str, link: &str) -> Paper {
    Paper { title: title.to_string(), link: link.to_string() }
}

const TABLE: &str = "title,issue,papers,coordinator,state,date,recording\nOn Naming,https://github.com/x/papers/issues/1,[On Naming](https://a.example/naming.pdf) [Part 2](https://a.example/2.pdf),ada,closed,02/09/2020,https://rec.example/1\nQuiet week,https://github.com/x/papers/issues/2,,bob,open,12/31/2021,\n";

#[test]
fn table_of_meetings_is_read() {
    let meetings = get_meetings_from_repo(TABLE).unwrap();
    assert_eq!(
        meetings,
        vec![
            Meeting {
                title: "On Naming".to_string(),
                issue: "https://github.com/x/papers/issues/1".to_string(),
                papers: vec![
                    paper("On Naming", "https://a.example/naming.pdf"),
                    paper("Part 2", "https://a.example/2.pdf"),
                ],
                date: Date { year: 2020, month: 2, day: 9 },
                coordinator: "ada".to_string(),
                state: "closed".to_string(),
                recording: "https://rec.example/1".to_string(),
            },
            Meeting {
                title: "Quiet week".to_string(),
                issue: "https://github.com/x/papers/issues/2".to_string(),
                papers: vec![paper("", "")],
                date: Date { year: 2021, month: 12, day: 31 },
                coordinator: "bob".to_string(),
                state: "open".to_string(),
                recording: String::new(),
            },
        ]
    );
}

#[test]
fn header_alone_gives_no_meetings() {
    assert_eq!(get_meetings_from_repo("a,b,c,d,e,f,g\n"), Ok(Vec::new()));
    assert_eq!(get_meetings_from_repo(""), Ok(Vec::new()));
}

#[test]
fn errors_of_the_table() {
    assert_eq!(get_meetings_from_repo("a,b\n1,2,3\n"), Err(MeetingsError::InvalidCsv));
    assert_eq!(get_meetings_from_repo("a,b\n1,2\n"), Err(MeetingsError::MissingField));
    assert_eq!(
        get_meetings_from_repo("a,b,c,d,e,f,g\nt,i,[p](l),c,s,2020-02-09,r\n"),
        Err(MeetingsError::InvalidDate)
    );
    assert_eq!(
        get_meetings_from_repo("a,b,c,d,e,f,g\nt,i,]p[,c,s,02/09/2020,r\n"),
        Err(MeetingsError::MalformedPaper)
    );
    // The first row that fails decides.
    assert_eq!(
        get_meetings_from_repo("a,b,c,d,e,f,g\nt,i,]p[,c,s,02/09/2020,r\nt,i,p,c,s,never,r\n"),
        Err(MeetingsError::MalformedPaper)
    );
}

#[test]
fn records_one_by_one() {
    let short: Vec<String> = vec!["a".to_string(); 6];
    assert_eq!(meeting_from_record(&short), Err(MeetingsError::MissingField));
    assert_eq!(meetings_from_records(&Vec::new()), Ok(Vec::new()));
    assert_eq!(meetings_from_records(&vec![short]), Err(MeetingsError::MissingField));
}

#[test]
fn papers_in_markdown() {
    assert_eq!(parse_papers("[A](x)"), Some(vec![paper("A", "x")]));
    assert_eq!(parse_papers("  [A](x) [B](y) [C](z)  "), Some(vec![paper("A", "x"), paper("B", "y"), paper("C", "z")]));
    assert_eq!(parse_papers("plain"), Some(vec![paper("plain", "plain")]));
    assert_eq!(parse_papers("[[A]](x)"), Some(vec![paper("A", "x")]));
    assert_eq!(parse_papers(")("), None);
    assert_eq!(parse_papers("][T(l)"), None);
    let _ = chars_of("");
}

#[test]
fn meeting_message() {
    let m = get_meetings_from_repo(TABLE).unwrap().remove(0);
    let want = message(vec![
        section("<https://github.com/x/papers/issues/1|*On Naming*>".to_string()),
        context("<https://github.com/ada|@ada> | 02/09/2020 | status: *closed*".to_string()),
    ]);
    assert_eq!(m.as_slack_msg(), Some(want));
    let mut odd = m.clone();
    odd.date = Date { year: 2020, month: 13, day: 1 };
    assert_eq!(odd.as_slack_msg(), None);
    assert_eq!(odd.slack_msg_with("someday").blocks.unwrap().len(), 2);
}
