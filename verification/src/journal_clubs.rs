//! Journal club meetings and the papers read at them.

use vstd::prelude::*;
use vstd::string::StringExecFns;
use crate::slack::{
    block_views, context, context_block, message, message_of, section, section_block,
    FormattedMessage, MessageBlock, MessageView,
};
use crate::text::{
    chars_of, find_char, first_index, option_text, slice_of, split, split_on, string_of,
    strip_char_end, strip_char_start, strip_leading_char, strip_trailing_char, texts_of, trim,
    trimmed,
};
use crate::time::{day_of, day_text, format_day, parse_day, Date};

verus! {

// ---------------------------------------------------------------------------
// Types
// ---------------------------------------------------------------------------
/// The data type for a paper.
#[derive(Debug, Default, Clone, PartialEq, Eq)]
pub struct Paper {
    pub title: String,
    pub link: String,
}

/// The data type for a journal club meeting.
#[derive(Debug, Clone, PartialEq, Eq)]
pub struct Meeting {
    pub title: String,
    pub issue: String,
    pub papers: Vec<Paper>,
    pub date: Date,
    pub coordinator: String,
    pub state: String,
    pub recording: String,
}

/// Why a list of meetings could not be read.
#[derive(Debug, Clone, Copy, PartialEq, Eq, Structural)]
pub enum MeetingsError {
    /// The text is not a table of comma-separated values.
    InvalidCsv,
    /// A row has fewer than seven fields.
    MissingField,
    /// The date of a meeting is not a day written as month/day/year.
    InvalidDate,
    /// A paper closes its title or its link before it opens it.
    MalformedPaper,
}

/// The mathematical content of a paper: its title and its link.
pub struct PaperView {
    pub title: Seq<char>,
    pub link: Seq<char>,
}

/// The mathematical content of a meeting.
pub struct MeetingView {
    pub title: Seq<char>,
    pub issue: Seq<char>,
    pub papers: Seq<PaperView>,
    pub date: Date,
    pub coordinator: Seq<char>,
    pub state: Seq<char>,
    pub recording: Seq<char>,
}

impl View for Paper {
    type V = PaperView;

    open spec fn view(&self) -> PaperView {
        PaperView { title: self.title@, link: self.link@ }
    }
}

/// The views of a list of papers.
pub open spec fn paper_views(papers: Seq<Paper>) -> Seq<PaperView> {
    papers.map_values(|p: Paper| p@)
}

impl View for Meeting {
    type V = MeetingView;

    open spec fn view(&self) -> MeetingView {
        MeetingView {
            title: self.title@,
            issue: self.issue@,
            papers: paper_views(self.papers@),
            date: self.date,
            coordinator: self.coordinator@,
            state: self.state@,
            recording: self.recording@,
        }
    }
}

/// The views of a list of meetings.
pub open spec fn meeting_views(meetings: Seq<Meeting>) -> Seq<MeetingView> {
    meetings.map_values(|m: Meeting| m@)
}

// ---------------------------------------------------------------------------
// Papers in Markdown
// ---------------------------------------------------------------------------
/// What stands in `piece` between the first `open` (or the start, where
/// there is none) and the first `close` (or the end, where there is none),
/// without the `open`s in front and the `close`s behind; `None` where the
/// first `close` comes before the first `open`.
pub open spec fn enclosed(piece: Seq<char>, open: char, close: char) -> Option<Seq<char>> {
    let found = first_index(piece, open);
    let start = if found == piece.len() {
        0
    } else {
        found
    };
    let end = first_index(piece, close);
    if start <= end {
        Some(strip_trailing_char(strip_leading_char(piece.subrange(start, end), open), close))
    } else {
        None
    }
}

/// The paper that one piece of a list of Markdown links stands for: the
/// title in square brackets, the link in round ones.
pub open spec fn paper_of(piece: Seq<char>) -> Option<PaperView> {
    match (enclosed(piece, '[', ']'), enclosed(piece, '(', ')')) {
        (Some(title), Some(link)) => Some(PaperView { title, link }),
        _ => None,
    }
}

/// The papers that the pieces stand for, or `None` where one of them
/// stands for none.
pub open spec fn papers_from(pieces: Seq<Seq<char>>) -> Option<Seq<PaperView>>
    decreases pieces.len(),
{
    if pieces.len() == 0 {
        Some(Seq::empty())
    } else {
        match (papers_from(pieces.drop_last()), paper_of(pieces.last())) {
            (Some(papers), Some(paper)) => Some(papers.push(paper)),
            _ => None,
        }
    }
}

/// The papers of a field that lists them as Markdown links, one after the
/// other with a space between.
pub open spec fn papers_of(field: Seq<char>) -> Option<Seq<PaperView>> {
    papers_from(split_on(trimmed(field), ") ["@))
}

// ---------------------------------------------------------------------------
// Meetings in a table
// ---------------------------------------------------------------------------
/// The records, each a list of fields, that the `csv` crate reads from a
/// text with a header line and commas between the fields; `None` where it
/// reports an error.
pub uninterp spec fn csv_records(text: Seq<char>) -> Option<Seq<Seq<Seq<char>>>>;

/// The views of a list of records.
pub open spec fn record_views(records: Seq<Vec<String>>) -> Seq<Seq<Seq<char>>> {
    records.map_values(|r: Vec<String>| texts_of(r@))
}

#[verifier::external_type_specification]
#[verifier::external_body]
pub struct ExCsvError(csv::Error);

/// The view of what `read_records` hands back.
pub open spec fn records_result(r: Result<Vec<Vec<String>>, csv::Error>) -> Option<
    Seq<Seq<Seq<char>>>,
> {
    match r {
        Ok(records) => Some(record_views(records@)),
        Err(_) => None,
    }
}

/// Reads all records of `text` with a `csv::Reader` built for a header
/// line and the comma as delimiter, and hands back the fields of each
/// record as strings, or the first error of the reader. The contract only
/// names the result.
#[verifier::external_body]
fn read_records(text: &str) -> (r: Result<Vec<Vec<String>>, csv::Error>)
    ensures
        records_result(r) == csv_records(text@),
{
    let mut reader =
        csv::ReaderBuilder::new().delimiter(b',').has_headers(true).from_reader(text.as_bytes());
    let mut records: Vec<Vec<String>> = Vec::new();
    for record in reader.records() {
        records.push(record?.iter().map(|field| field.to_string()).collect());
    }
    Ok(records)
}

/// The meeting that one record stands for: title, issue, papers,
/// coordinator, state, date and recording, in this order.
pub open spec fn meeting_of(record: Seq<Seq<char>>) -> Result<MeetingView, MeetingsError> {
    if record.len() < 7 {
        Err(MeetingsError::MissingField)
    } else {
        match day_of(record[5]) {
            None => Err(MeetingsError::InvalidDate),
            Some(date) => match papers_of(record[2]) {
                None => Err(MeetingsError::MalformedPaper),
                Some(papers) => Ok(
                    MeetingView {
                        title: record[0],
                        issue: record[1],
                        papers,
                        date,
                        coordinator: record[3],
                        state: record[4],
                        recording: record[6],
                    },
                ),
            },
        }
    }
}

/// The meetings that the records stand for, or the error of the first
/// record that stands for none.
pub open spec fn meetings_of(records: Seq<Seq<Seq<char>>>) -> Result<
    Seq<MeetingView>,
    MeetingsError,
>
    decreases records.len(),
{
    if records.len() == 0 {
        Ok(Seq::empty())
    } else {
        match meetings_of(records.drop_last()) {
            Err(e) => Err(e),
            Ok(meetings) => match meeting_of(records.last()) {
                Err(e) => Err(e),
                Ok(meeting) => Ok(meetings.push(meeting)),
            },
        }
    }
}

/// The meetings that a table stands for.
pub open spec fn meetings_in(text: Seq<char>) -> Result<Seq<MeetingView>, MeetingsError> {
    match csv_records(text) {
        None => Err(MeetingsError::InvalidCsv),
        Some(records) => meetings_of(records),
    }
}

/// The view of a list of meetings or an error.
pub open spec fn meetings_result(r: Result<Vec<Meeting>, MeetingsError>) -> Result<
    Seq<MeetingView>,
    MeetingsError,
> {
    match r {
        Ok(meetings) => Ok(meeting_views(meetings@)),
        Err(e) => Err(e),
    }
}

// ---------------------------------------------------------------------------
// The message
// ---------------------------------------------------------------------------
/// The chat message that announces a meeting, `day` being its date in
/// words: the title as a link to the issue, then the coordinator, the day
/// and the state.
pub open spec fn meeting_message(m: MeetingView, day: Seq<char>) -> MessageView {
    message_of(
        seq![
            section_block("<"@ + m.issue + "|*"@ + m.title + "*>"@),
            context_block(
                "<https://github.com/"@ + m.coordinator + "|@"@ + m.coordinator + "> | "@ + day
                    + " | status: *"@ + m.state + "*"@,
            ),
        ],
    )
}

// ---------------------------------------------------------------------------
// Executable functions
// ---------------------------------------------------------------------------
/// What stands in `piece` between the first `open` and the first `close`.
pub fn enclosed_in(piece: &Vec<char>, open: char, close: char) -> (r: Option<String>)
    ensures
        option_text(r) == enclosed(piece@, open, close),
{
    let found = find_char(piece, open);
    let start = if found == piece.len() {
        0
    } else {
        found
    };
    let end = find_char(piece, close);
    if start <= end {
        let inner = slice_of(piece, start, end);
        Some(string_of(&strip_char_end(&strip_char_start(&inner, open), close)))
    } else {
        None
    }
}

/// The paper that one piece of a list of Markdown links stands for.
pub fn parse_paper(piece: &Vec<char>) -> (r: Option<Paper>)
    ensures
        match r {
            Some(paper) => paper_of(piece@) == Some(paper@),
            None => paper_of(piece@) is None,
        },
{
    let title = match enclosed_in(piece, '[', ']') {
        Some(title) => title,
        None => {
            return None;
        },
    };
    match enclosed_in(piece, '(', ')') {
        Some(link) => Some(Paper { title, link }),
        None => None,
    }
}

/// The papers of a field that lists them as Markdown links.
pub fn parse_papers(field: &str) -> (r: Option<Vec<Paper>>)
    ensures
        match r {
            Some(papers) => papers_of(field@) == Some(paper_views(papers@)),
            None => papers_of(field@) is None,
        },
{
    let pieces = split(&trim(&chars_of(field)), &chars_of(") ["));
    let ghost all = pieces@.map_values(|p: Vec<char>| p@);
    let mut papers: Vec<Paper> = Vec::new();
    let mut i: usize = 0;
    assert(all.take(0) =~= Seq::<Seq<char>>::empty());
    assert(paper_views(papers@) =~= Seq::<PaperView>::empty());
    while i < pieces.len()
        invariant
            i <= pieces.len(),
            all == pieces@.map_values(|p: Vec<char>| p@),
            all == split_on(trimmed(field@), ") ["@),
            papers_from(all.take(i as int)) == Some(paper_views(papers@)),
        decreases pieces.len() - i,
    {
        let ghost next = all.take(i + 1);
        let ghost so_far = paper_views(papers@);
        assert(next.drop_last() =~= all.take(i as int));
        assert(next.last() == pieces@[i as int]@);
        match parse_paper(&pieces[i]) {
            Some(paper) => {
                papers.push(paper);
                assert(paper_views(papers@) =~= so_far.push(paper@));
            },
            None => {
                proof {
                    lemma_papers_fail(all, i + 1);
                }
                return None;
            },
        }
        i += 1;
    }
    assert(all.take(pieces.len() as int) =~= all);
    Some(papers)
}

/// Once a piece stands for no paper, no longer list of pieces stands for
/// papers.
pub proof fn lemma_papers_fail(pieces: Seq<Seq<char>>, k: int)
    requires
        0 <= k <= pieces.len(),
        papers_from(pieces.take(k)) is None,
    ensures
        papers_from(pieces) is None,
    decreases pieces.len() - k,
{
    if k == pieces.len() {
        assert(pieces.take(k) =~= pieces);
    } else {
        assert(pieces.take(k + 1).drop_last() =~= pieces.take(k));
        lemma_papers_fail(pieces, k + 1);
    }
}

/// Once a record stands for no meeting, no longer list of records stands
/// for meetings, and the error stays that of the first such record.
pub proof fn lemma_meetings_fail(records: Seq<Seq<Seq<char>>>, k: int)
    requires
        0 <= k <= records.len(),
        meetings_of(records.take(k)) is Err,
    ensures
        meetings_of(records) == meetings_of(records.take(k)),
    decreases records.len() - k,
{
    if k == records.len() {
        assert(records.take(k) =~= records);
    } else {
        assert(records.take(k + 1).drop_last() =~= records.take(k));
        lemma_meetings_fail(records, k + 1);
    }
}

/// The meeting that one record stands for.
pub fn meeting_from_record(record: &Vec<String>) -> (r: Result<Meeting, MeetingsError>)
    ensures
        match r {
            Ok(meeting) => meeting_of(texts_of(record@)) == Ok::<MeetingView, MeetingsError>(
                meeting@,
            ),
            Err(e) => meeting_of(texts_of(record@)) == Err::<MeetingView, MeetingsError>(e),
        },
{
    if record.len() < 7 {
        return Err(MeetingsError::MissingField);
    }
    let ghost fields = texts_of(record@);
    assert(fields[0] == record@[0]@ && fields[1] == record@[1]@ && fields[2] == record@[2]@
        && fields[3] == record@[3]@ && fields[4] == record@[4]@ && fields[5] == record@[5]@
        && fields[6] == record@[6]@);
    let date = match parse_day(record[5].as_str()) {
        Some(date) => date,
        None => {
            return Err(MeetingsError::InvalidDate);
        },
    };
    let papers = match parse_papers(record[2].as_str()) {
        Some(papers) => papers,
        None => {
            return Err(MeetingsError::MalformedPaper);
        },
    };
    Ok(
        Meeting {
            title: record[0].clone(),
            issue: record[1].clone(),
            papers,
            date,
            coordinator: record[3].clone(),
            state: record[4].clone(),
            recording: record[6].clone(),
        },
    )
}

/// The meetings that a list of records stands for.
pub fn meetings_from_records(records: &Vec<Vec<String>>) -> (r: Result<Vec<Meeting>, MeetingsError>)
    ensures
        meetings_result(r) == meetings_of(record_views(records@)),
{
    let ghost all = record_views(records@);
    let mut meetings: Vec<Meeting> = Vec::new();
    let mut i: usize = 0;
    assert(all.take(0) =~= Seq::<Seq<Seq<char>>>::empty());
    assert(meeting_views(meetings@) =~= Seq::<MeetingView>::empty());
    while i < records.len()
        invariant
            i <= records.len(),
            all == record_views(records@),
            meetings_of(all.take(i as int)) == Ok::<Seq<MeetingView>, MeetingsError>(
                meeting_views(meetings@),
            ),
        decreases records.len() - i,
    {
        let ghost next = all.take(i + 1);
        let ghost so_far = meeting_views(meetings@);
        assert(next.drop_last() =~= all.take(i as int));
        assert(next.last() == texts_of(records@[i as int]@));
        match meeting_from_record(&records[i]) {
            Ok(meeting) => {
                meetings.push(meeting);
                assert(meeting_views(meetings@) =~= so_far.push(meeting@));
            },
            Err(e) => {
                proof {
                    lemma_meetings_fail(all, i + 1);
                }
                return Err(e);
            },
        }
        i += 1;
    }
    assert(all.take(records.len() as int) =~= all);
    Ok(meetings)
}

/// Get the journal club meetings from the table that the papers
/// repository keeps of them, given as text.
pub fn get_meetings_from_repo(meetings_csv: &str) -> (r: Result<Vec<Meeting>, MeetingsError>)
    ensures
        meetings_result(r) == meetings_in(meetings_csv@),
{
    match read_records(meetings_csv) {
        Ok(records) => meetings_from_records(&records),
        Err(_) => Err(MeetingsError::InvalidCsv),
    }
}

impl Meeting {
    /// The chat message that announces the meeting, `day` being its date
    /// in words.
    pub fn slack_msg_with(&self, day: &str) -> (m: FormattedMessage)
        ensures
            m@ == meeting_message(self@, day@),
    {
        let mut head = String::from_str("<");
        head.append(self.issue.as_str());
        head.append("|*");
        head.append(self.title.as_str());
        head.append("*>");
        let mut line = String::from_str("<https://github.com/");
        line.append(self.coordinator.as_str());
        line.append("|@");
        line.append(self.coordinator.as_str());
        line.append("> | ");
        line.append(day);
        line.append(" | status: *");
        line.append(self.state.as_str());
        line.append("*");
        let mut blocks: Vec<MessageBlock> = Vec::new();
        blocks.push(section(head));
        blocks.push(context(line));
        assert(block_views(blocks@) =~= seq![
            section_block("<"@ + self.issue@ + "|*"@ + self.title@ + "*>"@),
            context_block(
                "<https://github.com/"@ + self.coordinator@ + "|@"@ + self.coordinator@ + "> | "@
                    + day@ + " | status: *"@ + self.state@ + "*"@,
            ),
        ]);
        message(blocks)
    }

    /// Convert the journal club meeting into a chat message; `None` where
    /// the date of the meeting is no day of the calendar.
    pub fn as_slack_msg(&self) -> (r: Option<FormattedMessage>)
        ensures
            match r {
                Some(m) => day_text(self.date) matches Some(day) && m@ == meeting_message(
                    self@,
                    day,
                ),
                None => day_text(self.date) is None,
            },
    {
        match format_day(self.date) {
            Some(day) => Some(self.slack_msg_with(day.as_str())),
            None => None,
        }
    }
}

} // verus!
