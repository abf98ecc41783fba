//! The applicant record and its assembly from one row of an applications
//! sheet and the text of the applicant's documents.

use vstd::prelude::*;
use crate::extract::{
    first_extracted, free_of_boilerplate, lemma_fallback_empty_document, lemma_fallback_is_free,
    lemma_fallback_is_trimmed,
};
use crate::handle::{lemma_handles_exclusive, normalize_handle, normalized_handles};
use crate::phone::{
    inferred_country, lemma_country_is_set, normalize_phone, normalized_phone, stripped_phone,
    NormalizedPhone, PhoneView,
};
use crate::rules::{field_pairs, rule_for, Field};
use crate::text::{
    chars_of, contains, has_substring, is_trimmed, lowercase, string_of, texts_of, to_lowercase,
    trim, trimmed,
};
use crate::time::{parse_sheet_timestamp, sheet_instant, UtcTime};

verus! {

// ---------------------------------------------------------------------------
// Types
// ---------------------------------------------------------------------------
/// Where the columns of an applications sheet stand in a row, counted from
/// zero. For every column but the timestamp, the name and the email, zero
/// means that the sheet has no such column.
#[derive(Debug, Clone, Copy, PartialEq, Eq, Structural)]
pub struct ApplicantSheetColumns {
    pub timestamp: usize,
    pub name: usize,
    pub email: usize,
    pub location: usize,
    pub phone: usize,
    pub github: usize,
    pub portfolio: usize,
    pub website: usize,
    pub linkedin: usize,
    pub resume: usize,
    pub materials: usize,
    pub status: usize,
    pub sent_email_received: usize,
    pub value_reflected: usize,
    pub value_violated: usize,
    pub value_in_tension_1: usize,
    pub value_in_tension_2: usize,
}

/// Why a row could not be assembled into an applicant.
#[derive(Debug, Clone, Copy, PartialEq, Eq, Structural)]
pub enum ParseError {
    /// The row ends before the timestamp, the name or the email.
    MissingColumn,
    /// The timestamp is not a date and time of the sheet's format.
    InvalidTimestamp,
    /// A boundary expression of the field rules is not a regular expression.
    InvalidPattern,
}

/// The data type for an Applicant.
#[derive(Debug, Clone, PartialEq, Eq)]
pub struct Applicant {
    pub name: String,
    pub role: String,
    pub sheet_id: String,
    pub status: String,
    pub submitted_time: UtcTime,
    pub email: String,
    pub phone: String,
    pub country_code: String,
    pub location: String,
    pub github: String,
    pub gitlab: String,
    pub linkedin: String,
    pub portfolio: String,
    pub website: String,
    pub resume: String,
    pub materials: String,
    pub sent_email_received: bool,
    pub value_reflected: String,
    pub value_violated: String,
    pub values_in_tension: Vec<String>,
    pub resume_contents: String,
    pub materials_contents: String,
    pub work_samples: String,
    pub writing_samples: String,
    pub analysis_samples: String,
    pub presentation_samples: String,
    pub exploratory_samples: String,
    pub question_technically_challenging: String,
    pub question_proud_of: String,
    pub question_happiest: String,
    pub question_unhappiest: String,
    pub question_value_reflected: String,
    pub question_value_violated: String,
    pub question_values_in_tension: String,
    pub question_why_oxide: String,
}

/// The mathematical content of an `Applicant`.
pub struct ApplicantView {
    pub name: Seq<char>,
    pub role: Seq<char>,
    pub sheet_id: Seq<char>,
    pub status: Seq<char>,
    pub submitted_time: UtcTime,
    pub email: Seq<char>,
    pub phone: Seq<char>,
    pub country_code: Seq<char>,
    pub location: Seq<char>,
    pub github: Seq<char>,
    pub gitlab: Seq<char>,
    pub linkedin: Seq<char>,
    pub portfolio: Seq<char>,
    pub website: Seq<char>,
    pub resume: Seq<char>,
    pub materials: Seq<char>,
    pub sent_email_received: bool,
    pub value_reflected: Seq<char>,
    pub value_violated: Seq<char>,
    pub values_in_tension: Seq<Seq<char>>,
    pub resume_contents: Seq<char>,
    pub materials_contents: Seq<char>,
    pub work_samples: Seq<char>,
    pub writing_samples: Seq<char>,
    pub analysis_samples: Seq<char>,
    pub presentation_samples: Seq<char>,
    pub exploratory_samples: Seq<char>,
    pub question_technically_challenging: Seq<char>,
    pub question_proud_of: Seq<char>,
    pub question_happiest: Seq<char>,
    pub question_unhappiest: Seq<char>,
    pub question_value_reflected: Seq<char>,
    pub question_value_violated: Seq<char>,
    pub question_values_in_tension: Seq<char>,
    pub question_why_oxide: Seq<char>,
}

impl View for Applicant {
    type V = ApplicantView;

    open spec fn view(&self) -> ApplicantView {
        ApplicantView {
            name: self.name@,
            role: self.role@,
            sheet_id: self.sheet_id@,
            status: self.status@,
            submitted_time: self.submitted_time,
            email: self.email@,
            phone: self.phone@,
            country_code: self.country_code@,
            location: self.location@,
            github: self.github@,
            gitlab: self.gitlab@,
            linkedin: self.linkedin@,
            portfolio: self.portfolio@,
            website: self.website@,
            resume: self.resume@,
            materials: self.materials@,
            sent_email_received: self.sent_email_received,
            value_reflected: self.value_reflected@,
            value_violated: self.value_violated@,
            values_in_tension: texts_of(self.values_in_tension@),
            resume_contents: self.resume_contents@,
            materials_contents: self.materials_contents@,
            work_samples: self.work_samples@,
            writing_samples: self.writing_samples@,
            analysis_samples: self.analysis_samples@,
            presentation_samples: self.presentation_samples@,
            exploratory_samples: self.exploratory_samples@,
            question_technically_challenging: self.question_technically_challenging@,
            question_proud_of: self.question_proud_of@,
            question_happiest: self.question_happiest@,
            question_unhappiest: self.question_unhappiest@,
            question_value_reflected: self.question_value_reflected@,
            question_value_violated: self.question_value_violated@,
            question_values_in_tension: self.question_values_in_tension@,
            question_why_oxide: self.question_why_oxide@,
        }
    }
}

impl ApplicantView {
    /// What holds of every assembled record: of the two handles at most one
    /// is set, a country of two letters is set, and every extracted
    /// long-text field is trimmed and holds none of the boilerplate strings.
    pub open spec fn well_formed(self) -> bool {
        &&& !(self.github.len() > 0 && self.gitlab.len() > 0)
        &&& self.country_code.len() == 2
        &&& is_trimmed(self.work_samples)
        &&& is_trimmed(self.writing_samples)
        &&& is_trimmed(self.analysis_samples)
        &&& is_trimmed(self.presentation_samples)
        &&& is_trimmed(self.exploratory_samples)
        &&& is_trimmed(self.question_technically_challenging)
        &&& is_trimmed(self.question_proud_of)
        &&& is_trimmed(self.question_happiest)
        &&& is_trimmed(self.question_unhappiest)
        &&& is_trimmed(self.question_value_reflected)
        &&& is_trimmed(self.question_value_violated)
        &&& is_trimmed(self.question_values_in_tension)
        &&& is_trimmed(self.question_why_oxide)
        &&& free_of_boilerplate(self.work_samples)
        &&& free_of_boilerplate(self.writing_samples)
        &&& free_of_boilerplate(self.analysis_samples)
        &&& free_of_boilerplate(self.presentation_samples)
        &&& free_of_boilerplate(self.exploratory_samples)
        &&& free_of_boilerplate(self.question_technically_challenging)
        &&& free_of_boilerplate(self.question_proud_of)
        &&& free_of_boilerplate(self.question_happiest)
        &&& free_of_boilerplate(self.question_unhappiest)
        &&& free_of_boilerplate(self.question_value_reflected)
        &&& free_of_boilerplate(self.question_value_violated)
        &&& free_of_boilerplate(self.question_values_in_tension)
        &&& free_of_boilerplate(self.question_why_oxide)
    }
}

// ---------------------------------------------------------------------------
// The meaning of a row
// ---------------------------------------------------------------------------
/// The status of an application that nobody has looked at yet.
pub open spec fn default_status() -> Seq<char> {
    "Needs to be triaged"@
}

/// The cell of an optional column: `None` where the column is not in the
/// sheet (position zero) or the row ends before it.
pub open spec fn optional_cell(row: Seq<Seq<char>>, position: usize) -> Option<Seq<char>> {
    if position != 0 && position < row.len() {
        Some(row[position as int])
    } else {
        None
    }
}

/// The cell of an optional column, empty where there is none.
pub open spec fn cell_or_empty(row: Seq<Seq<char>>, position: usize) -> Seq<char> {
    match optional_cell(row, position) {
        Some(cell) => cell,
        None => Seq::empty(),
    }
}

/// The cell of an optional column trimmed and in lowercase, empty where
/// there is none.
pub open spec fn normalized_cell(row: Seq<Seq<char>>, position: usize) -> Seq<char> {
    match optional_cell(row, position) {
        Some(cell) => lowercase(trimmed(cell)),
        None => Seq::empty(),
    }
}

/// The canonical status for a status cell: the cell is trimmed and put in
/// lowercase, and the first of "next steps", "deferred", "declined" and
/// "hired" that it holds decides; a cell that holds none of them stays as
/// it is, trimmed and in lowercase. No cell, or a blank one, is the status
/// of an application that nobody has looked at yet.
pub open spec fn normalized_status(cell: Option<Seq<char>>) -> Seq<char> {
    match cell {
        None => default_status(),
        Some(text) => {
            let s = lowercase(trimmed(text));
            if trimmed(text).len() == 0 {
                default_status()
            } else if has_substring(s, "next steps"@) {
                "Next steps"@
            } else if has_substring(s, "deferred"@) {
                "Deferred"@
            } else if has_substring(s, "declined"@) {
                "Declined"@
            } else if has_substring(s, "hired"@) {
                "Hired"@
            } else {
                s
            }
        },
    }
}

/// Whether the applicant was sent a confirmation: yes, unless the cell
/// says "false" in any case.
pub open spec fn confirmation_sent(cell: Seq<char>) -> bool {
    !has_substring(lowercase(cell), "false"@)
}

/// The values in tension: the cells of the two columns that are there,
/// trimmed and in lowercase.
pub open spec fn tension_values(row: Seq<Seq<char>>, first: usize, second: usize) -> Seq<
    Seq<char>,
> {
    let a = match optional_cell(row, first) {
        Some(cell) => seq![lowercase(trimmed(cell))],
        None => Seq::empty(),
    };
    match optional_cell(row, second) {
        Some(cell) => a.push(lowercase(trimmed(cell))),
        None => a,
    }
}

/// The normalized phone of a row: the phone cell against the trimmed
/// location cell.
pub open spec fn row_phone(columns: ApplicantSheetColumns, row: Seq<Seq<char>>) -> PhoneView {
    normalized_phone(
        cell_or_empty(row, columns.phone),
        trimmed(cell_or_empty(row, columns.location)),
    )
}

/// The answer for a field in a materials document.
pub open spec fn field_answer(field: Field, document: Seq<char>) -> Option<Seq<char>> {
    first_extracted(field_pairs(field), document)
}

/// Whether every field rule can be carried out on a document.
pub open spec fn fields_resolve(document: Seq<char>) -> bool {
    &&& field_answer(Field::WorkSamples, document) is Some
    &&& field_answer(Field::WritingSamples, document) is Some
    &&& field_answer(Field::AnalysisSamples, document) is Some
    &&& field_answer(Field::PresentationSamples, document) is Some
    &&& field_answer(Field::ExploratorySamples, document) is Some
    &&& field_answer(Field::QuestionTechnicallyChallenging, document) is Some
    &&& field_answer(Field::QuestionProudOf, document) is Some
    &&& field_answer(Field::QuestionHappiest, document) is Some
    &&& field_answer(Field::QuestionUnhappiest, document) is Some
    &&& field_answer(Field::QuestionValueReflected, document) is Some
    &&& field_answer(Field::QuestionValueViolated, document) is Some
    &&& field_answer(Field::QuestionValuesInTension, document) is Some
    &&& field_answer(Field::QuestionWhyOxide, document) is Some
}

/// The record for a row whose identity columns are there, whose timestamp
/// reads as `submitted_time` and whose field rules resolve.
pub open spec fn assembled(
    sheet_name: Seq<char>,
    sheet_id: Seq<char>,
    columns: ApplicantSheetColumns,
    row: Seq<Seq<char>>,
    resume_contents: Seq<char>,
    materials_contents: Seq<char>,
    submitted_time: UtcTime,
) -> ApplicantView {
    let location = trimmed(cell_or_empty(row, columns.location));
    let phone = row_phone(columns, row);
    let handles = normalized_handles(cell_or_empty(row, columns.github));
    ApplicantView {
        name: row[columns.name as int],
        role: sheet_name,
        sheet_id,
        status: normalized_status(optional_cell(row, columns.status)),
        submitted_time,
        email: row[columns.email as int],
        phone: phone.phone,
        country_code: phone.country_code,
        location,
        github: handles.0,
        gitlab: handles.1,
        linkedin: normalized_cell(row, columns.linkedin),
        portfolio: normalized_cell(row, columns.portfolio),
        website: normalized_cell(row, columns.website),
        resume: cell_or_empty(row, columns.resume),
        materials: cell_or_empty(row, columns.materials),
        sent_email_received: confirmation_sent(cell_or_empty(row, columns.sent_email_received)),
        value_reflected: normalized_cell(row, columns.value_reflected),
        value_violated: normalized_cell(row, columns.value_violated),
        values_in_tension: tension_values(
            row,
            columns.value_in_tension_1,
            columns.value_in_tension_2,
        ),
        resume_contents,
        materials_contents,
        work_samples: field_answer(Field::WorkSamples, materials_contents)->0,
        writing_samples: field_answer(Field::WritingSamples, materials_contents)->0,
        analysis_samples: field_answer(Field::AnalysisSamples, materials_contents)->0,
        presentation_samples: field_answer(Field::PresentationSamples, materials_contents)->0,
        exploratory_samples: field_answer(Field::ExploratorySamples, materials_contents)->0,
        question_technically_challenging: field_answer(
            Field::QuestionTechnicallyChallenging,
            materials_contents,
        )->0,
        question_proud_of: field_answer(Field::QuestionProudOf, materials_contents)->0,
        question_happiest: field_answer(Field::QuestionHappiest, materials_contents)->0,
        question_unhappiest: field_answer(Field::QuestionUnhappiest, materials_contents)->0,
        question_value_reflected: field_answer(
            Field::QuestionValueReflected,
            materials_contents,
        )->0,
        question_value_violated: field_answer(Field::QuestionValueViolated, materials_contents)->0,
        question_values_in_tension: field_answer(
            Field::QuestionValuesInTension,
            materials_contents,
        )->0,
        question_why_oxide: field_answer(Field::QuestionWhyOxide, materials_contents)->0,
    }
}

/// Whether the identity columns are within the row.
pub open spec fn has_identity(columns: ApplicantSheetColumns, row: Seq<Seq<char>>) -> bool {
    columns.timestamp < row.len() && columns.name < row.len() && columns.email < row.len()
}

/// The record that a row and the text of its documents stand for, or the
/// reason why there is none: a row without its identity columns first, a
/// timestamp that does not read second, a field rule that cannot be carried
/// out last.
pub open spec fn applicant_record(
    sheet_name: Seq<char>,
    sheet_id: Seq<char>,
    columns: ApplicantSheetColumns,
    row: Seq<Seq<char>>,
    resume_contents: Seq<char>,
    materials_contents: Seq<char>,
) -> Result<ApplicantView, ParseError> {
    if !has_identity(columns, row) {
        Err(ParseError::MissingColumn)
    } else {
        match sheet_instant(row[columns.timestamp as int]) {
            None => Err(ParseError::InvalidTimestamp),
            Some(submitted_time) => if !fields_resolve(materials_contents) {
                Err(ParseError::InvalidPattern)
            } else {
                Ok(
                    assembled(
                        sheet_name,
                        sheet_id,
                        columns,
                        row,
                        resume_contents,
                        materials_contents,
                        submitted_time,
                    ),
                )
            },
        }
    }
}

/// The view of what `Applicant::parse` hands back.
pub open spec fn parse_view(r: Result<Applicant, ParseError>) -> Result<ApplicantView, ParseError> {
    match r {
        Ok(applicant) => Ok(applicant@),
        Err(e) => Err(e),
    }
}

// ---------------------------------------------------------------------------
// Laws
// ---------------------------------------------------------------------------
/// Assembly has no hidden state: two results for the same row and the same
/// documents are the same, record for record and error for error.
pub proof fn lemma_assembly_repeats(
    first: Result<Applicant, ParseError>,
    second: Result<Applicant, ParseError>,
    sheet_name: Seq<char>,
    sheet_id: Seq<char>,
    columns: ApplicantSheetColumns,
    row: Seq<Seq<char>>,
    resume_contents: Seq<char>,
    materials_contents: Seq<char>,
)
    requires
        parse_view(first) == applicant_record(
            sheet_name,
            sheet_id,
            columns,
            row,
            resume_contents,
            materials_contents,
        ),
        parse_view(second) == applicant_record(
            sheet_name,
            sheet_id,
            columns,
            row,
            resume_contents,
            materials_contents,
        ),
    ensures
        parse_view(first) == parse_view(second),
{
}

/// An empty materials document resolves every field rule, each to the
/// empty answer.
pub proof fn lemma_empty_materials()
    ensures
        forall|field: Field|
            #[trigger] field_answer(field, Seq::<char>::empty()) == Some(Seq::<char>::empty()),
        fields_resolve(Seq::<char>::empty()),
{
    assert forall|field: Field| #[trigger]
        field_answer(field, Seq::<char>::empty()) == Some(Seq::<char>::empty()) by {
        lemma_fallback_empty_document(field_pairs(field));
    }
}

/// Every record that a row and its documents stand for is well formed.
pub proof fn lemma_record_is_well_formed(
    sheet_name: Seq<char>,
    sheet_id: Seq<char>,
    columns: ApplicantSheetColumns,
    row: Seq<Seq<char>>,
    resume_contents: Seq<char>,
    materials_contents: Seq<char>,
)
    ensures
        applicant_record(
            sheet_name,
            sheet_id,
            columns,
            row,
            resume_contents,
            materials_contents,
        ) matches Ok(record) ==> record.well_formed(),
{
    let document = materials_contents;
    lemma_handles_exclusive(cell_or_empty(row, columns.github));
    lemma_country_is_set(
        trimmed(cell_or_empty(row, columns.location)),
        stripped_phone(cell_or_empty(row, columns.phone)),
    );
    lemma_fallback_is_trimmed(field_pairs(Field::WorkSamples), document);
    lemma_fallback_is_trimmed(field_pairs(Field::WritingSamples), document);
    lemma_fallback_is_trimmed(field_pairs(Field::AnalysisSamples), document);
    lemma_fallback_is_trimmed(field_pairs(Field::PresentationSamples), document);
    lemma_fallback_is_trimmed(field_pairs(Field::ExploratorySamples), document);
    lemma_fallback_is_trimmed(field_pairs(Field::QuestionTechnicallyChallenging), document);
    lemma_fallback_is_trimmed(field_pairs(Field::QuestionProudOf), document);
    lemma_fallback_is_trimmed(field_pairs(Field::QuestionHappiest), document);
    lemma_fallback_is_trimmed(field_pairs(Field::QuestionUnhappiest), document);
    lemma_fallback_is_trimmed(field_pairs(Field::QuestionValueReflected), document);
    lemma_fallback_is_trimmed(field_pairs(Field::QuestionValueViolated), document);
    lemma_fallback_is_trimmed(field_pairs(Field::QuestionValuesInTension), document);
    lemma_fallback_is_trimmed(field_pairs(Field::QuestionWhyOxide), document);
    lemma_fallback_is_free(field_pairs(Field::WorkSamples), document);
    lemma_fallback_is_free(field_pairs(Field::WritingSamples), document);
    lemma_fallback_is_free(field_pairs(Field::AnalysisSamples), document);
    lemma_fallback_is_free(field_pairs(Field::PresentationSamples), document);
    lemma_fallback_is_free(field_pairs(Field::ExploratorySamples), document);
    lemma_fallback_is_free(field_pairs(Field::QuestionTechnicallyChallenging), document);
    lemma_fallback_is_free(field_pairs(Field::QuestionProudOf), document);
    lemma_fallback_is_free(field_pairs(Field::QuestionHappiest), document);
    lemma_fallback_is_free(field_pairs(Field::QuestionUnhappiest), document);
    lemma_fallback_is_free(field_pairs(Field::QuestionValueReflected), document);
    lemma_fallback_is_free(field_pairs(Field::QuestionValueViolated), document);
    lemma_fallback_is_free(field_pairs(Field::QuestionValuesInTension), document);
    lemma_fallback_is_free(field_pairs(Field::QuestionWhyOxide), document);
}

/// The status of a row without a status column is the default one.
pub proof fn lemma_absent_status_is_default(row: Seq<Seq<char>>, position: usize)
    requires
        position == 0 || position >= row.len(),
    ensures
        normalized_status(optional_cell(row, position)) == default_status(),
{
}

/// The country code of an assembled record is the inferred country,
/// whatever became of the phone number.
pub proof fn lemma_assembled_country(
    sheet_name: Seq<char>,
    sheet_id: Seq<char>,
    columns: ApplicantSheetColumns,
    row: Seq<Seq<char>>,
    resume_contents: Seq<char>,
    materials_contents: Seq<char>,
    submitted_time: UtcTime,
)
    ensures
        assembled(
            sheet_name,
            sheet_id,
            columns,
            row,
            resume_contents,
            materials_contents,
            submitted_time,
        ).country_code == inferred_country(
            trimmed(cell_or_empty(row, columns.location)),
            stripped_phone(cell_or_empty(row, columns.phone)),
        ),
{
}

// ---------------------------------------------------------------------------
// Executable functions
// ---------------------------------------------------------------------------
/// The view of an optional string slice.
pub open spec fn slice_text(o: Option<&str>) -> Option<Seq<char>> {
    match o {
        Some(s) => Some(s@),
        None => None,
    }
}

/// The cell of an optional column: `None` where the column is not in the
/// sheet (position zero) or the row ends before it.
pub fn lookup<'a>(row: &'a [String], position: usize) -> (cell: Option<&'a str>)
    ensures
        slice_text(cell) == optional_cell(texts_of(row@), position),
{
    if position != 0 && position < row.len() {
        Some(row[position].as_str())
    } else {
        None
    }
}

/// The cell of an optional column, empty where there is none.
pub fn lookup_or_empty<'a>(row: &'a [String], position: usize) -> (cell: &'a str)
    ensures
        cell@ == cell_or_empty(texts_of(row@), position),
{
    match lookup(row, position) {
        Some(cell) => cell,
        None => {
            proof {
                reveal_strlit("");
            }
            assert(""@ =~= Seq::<char>::empty());
            ""
        },
    }
}

/// A text trimmed and in lowercase.
pub fn trim_lowercase(text: &str) -> (r: String)
    ensures
        r@ == lowercase(trimmed(text@)),
{
    string_of(&to_lowercase(&trim(&chars_of(text))))
}

/// The cell of an optional column trimmed and in lowercase, empty where
/// there is none.
pub fn lookup_normalized(row: &[String], position: usize) -> (cell: String)
    ensures
        cell@ == normalized_cell(texts_of(row@), position),
{
    match lookup(row, position) {
        Some(cell) => trim_lowercase(cell),
        None => String::new(),
    }
}

/// The canonical status for a status cell.
pub fn normalize_status(cell: Option<&str>) -> (status: String)
    ensures
        status@ == normalized_status(slice_text(cell)),
{
    match cell {
        None => "Needs to be triaged".to_owned(),
        Some(text) => {
            let entered = trim(&chars_of(text));
            if entered.len() == 0 {
                return "Needs to be triaged".to_owned();
            }
            let s = to_lowercase(&entered);
            if contains(&s, &chars_of("next steps")) {
                "Next steps".to_owned()
            } else if contains(&s, &chars_of("deferred")) {
                "Deferred".to_owned()
            } else if contains(&s, &chars_of("declined")) {
                "Declined".to_owned()
            } else if contains(&s, &chars_of("hired")) {
                "Hired".to_owned()
            } else {
                string_of(&s)
            }
        },
    }
}

/// Whether the applicant was sent a confirmation, by the cell that records
/// it.
pub fn was_confirmation_sent(cell: &str) -> (sent: bool)
    ensures
        sent == confirmation_sent(cell@),
{
    let lower = to_lowercase(&chars_of(cell));
    !contains(&lower, &chars_of("false"))
}

/// The values in tension of a row.
pub fn lookup_tension_values(row: &[String], first: usize, second: usize) -> (values: Vec<String>)
    ensures
        texts_of(values@) == tension_values(texts_of(row@), first, second),
{
    let mut values: Vec<String> = Vec::new();
    assert(texts_of(values@) =~= Seq::<Seq<char>>::empty());
    match lookup(row, first) {
        Some(cell) => {
            let value = trim_lowercase(cell);
            values.push(value);
            assert(texts_of(values@) =~= seq![lowercase(trimmed(cell@))]);
        },
        None => {},
    }
    let ghost before = texts_of(values@);
    match lookup(row, second) {
        Some(cell) => {
            let value = trim_lowercase(cell);
            values.push(value);
            assert(texts_of(values@) =~= before.push(lowercase(trimmed(cell@))));
        },
        None => {},
    }
    values
}

/// The normalized phone of a row, with the verdict of the phone-number
/// library on it: a number that was read but is not valid is kept in the
/// record all the same, and this is where a caller learns of it.
pub fn normalize_row_phone(columns: &ApplicantSheetColumns, row: &[String]) -> (r: NormalizedPhone)
    ensures
        r@ == row_phone(*columns, texts_of(row@)),
        r@.country_code.len() == 2,
{
    let location = string_of(&trim(&chars_of(lookup_or_empty(row, columns.location))));
    normalize_phone(lookup_or_empty(row, columns.phone), location.as_str())
}

/// The answer for a field in a materials document.
pub fn extract_field(field: Field, document: &str) -> (r: Result<String, ParseError>)
    ensures
        r matches Ok(answer) ==> field_answer(field, document@) == Some(answer@) && is_trimmed(
            answer@,
        ) && free_of_boilerplate(answer@),
        r matches Err(e) ==> e == ParseError::InvalidPattern && field_answer(field, document@)
            is None,
{
    match rule_for(field).resolve(document) {
        Ok(answer) => Ok(answer),
        Err(_) => Err(ParseError::InvalidPattern),
    }
}

impl Applicant {
    /// Assembles the applicant of one row of an applications sheet.
    ///
    /// `sheet_name` becomes the role and `sheet_id` is kept as it is.
    /// `resume_contents` and `materials_contents` are the texts of the two
    /// documents that the row refers to, empty where a document could not
    /// be had. The row must reach to its timestamp, name and email; every
    /// other column may be missing and then stands for its default.
    pub fn parse(
        sheet_name: &str,
        sheet_id: &str,
        columns: &ApplicantSheetColumns,
        row: &[String],
        resume_contents: String,
        materials_contents: String,
    ) -> (r: Result<Applicant, ParseError>)
        ensures
            parse_view(r) == applicant_record(
                sheet_name@,
                sheet_id@,
                *columns,
                texts_of(row@),
                resume_contents@,
                materials_contents@,
            ),
            r matches Ok(applicant) ==> applicant@.well_formed(),
            has_identity(*columns, texts_of(row@)) && materials_contents@.len() == 0 ==> !(r
                matches Err(ParseError::InvalidPattern)),
    {
        let ghost cells = texts_of(row@);
        if !(columns.timestamp < row.len() && columns.name < row.len() && columns.email
            < row.len()) {
            return Err(ParseError::MissingColumn);
        }
        assert(cells[columns.timestamp as int] == row@[columns.timestamp as int]@);
        assert(cells[columns.name as int] == row@[columns.name as int]@);
        assert(cells[columns.email as int] == row@[columns.email as int]@);
        let submitted_time = match parse_sheet_timestamp(row[columns.timestamp].as_str()) {
            Some(t) => t,
            None => {
                return Err(ParseError::InvalidTimestamp);
            },
        };
        proof {
            if materials_contents@.len() == 0 {
                assert(materials_contents@ =~= Seq::<char>::empty());
                lemma_empty_materials();
            }
        }
        let document = materials_contents.as_str();
        let work_samples = match extract_field(Field::WorkSamples, document) {
            Ok(answer) => answer,
            Err(e) => {
                return Err(e);
            },
        };
        let writing_samples = match extract_field(Field::WritingSamples, document) {
            Ok(answer) => answer,
            Err(e) => {
                return Err(e);
            },
        };
        let analysis_samples = match extract_field(Field::AnalysisSamples, document) {
            Ok(answer) => answer,
            Err(e) => {
                return Err(e);
            },
        };
        let presentation_samples = match extract_field(Field::PresentationSamples, document) {
            Ok(answer) => answer,
            Err(e) => {
                return Err(e);
            },
        };
        let exploratory_samples = match extract_field(Field::ExploratorySamples, document) {
            Ok(answer) => answer,
            Err(e) => {
                return Err(e);
            },
        };
        let question_technically_challenging = match extract_field(
            Field::QuestionTechnicallyChallenging,
            document,
        ) {
            Ok(answer) => answer,
            Err(e) => {
                return Err(e);
            },
        };
        let question_proud_of = match extract_field(Field::QuestionProudOf, document) {
            Ok(answer) => answer,
            Err(e) => {
                return Err(e);
            },
        };
        let question_happiest = match extract_field(Field::QuestionHappiest, document) {
            Ok(answer) => answer,
            Err(e) => {
                return Err(e);
            },
        };
        let question_unhappiest = match extract_field(Field::QuestionUnhappiest, document) {
            Ok(answer) => answer,
            Err(e) => {
                return Err(e);
            },
        };
        let question_value_reflected = match extract_field(
            Field::QuestionValueReflected,
            document,
        ) {
            Ok(answer) => answer,
            Err(e) => {
                return Err(e);
            },
        };
        let question_value_violated = match extract_field(Field::QuestionValueViolated, document) {
            Ok(answer) => answer,
            Err(e) => {
                return Err(e);
            },
        };
        let question_values_in_tension = match extract_field(
            Field::QuestionValuesInTension,
            document,
        ) {
            Ok(answer) => answer,
            Err(e) => {
                return Err(e);
            },
        };
        let question_why_oxide = match extract_field(Field::QuestionWhyOxide, document) {
            Ok(answer) => answer,
            Err(e) => {
                return Err(e);
            },
        };
        let location = string_of(&trim(&chars_of(lookup_or_empty(row, columns.location))));
        let NormalizedPhone { phone, country_code, was_read: _, is_valid: _ } =
            normalize_row_phone(columns, row);
        let (github, gitlab) = normalize_handle(lookup_or_empty(row, columns.github));
        let applicant = Applicant {
            name: row[columns.name].clone(),
            role: sheet_name.to_owned(),
            sheet_id: sheet_id.to_owned(),
            status: normalize_status(lookup(row, columns.status)),
            submitted_time,
            email: row[columns.email].clone(),
            phone,
            country_code,
            location,
            github,
            gitlab,
            linkedin: lookup_normalized(row, columns.linkedin),
            portfolio: lookup_normalized(row, columns.portfolio),
            website: lookup_normalized(row, columns.website),
            resume: lookup_or_empty(row, columns.resume).to_owned(),
            materials: lookup_or_empty(row, columns.materials).to_owned(),
            sent_email_received: was_confirmation_sent(
                lookup_or_empty(row, columns.sent_email_received),
            ),
            value_reflected: lookup_normalized(row, columns.value_reflected),
            value_violated: lookup_normalized(row, columns.value_violated),
            values_in_tension: lookup_tension_values(
                row,
                columns.value_in_tension_1,
                columns.value_in_tension_2,
            ),
            resume_contents,
            materials_contents,
            work_samples,
            writing_samples,
            analysis_samples,
            presentation_samples,
            exploratory_samples,
            question_technically_challenging,
            question_proud_of,
            question_happiest,
            question_unhappiest,
            question_value_reflected,
            question_value_violated,
            question_values_in_tension,
            question_why_oxide,
        };
        Ok(applicant)
    }
}

} // verus!
