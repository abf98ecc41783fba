//! The field rules: for every long-text field of an applicant record, the
//! boundary pairs that have enclosed its answer in the materials documents
//! over time, most specific first.

use vstd::prelude::*;
use crate::extract::{pairs_of, BoundaryPair, FieldExtractionRule};

verus! {

// The questions of the questionnaire. The line breaks in the documents fall
// in odd places, hence the wildcards in the middle of words.
pub const QUESTION_TECHNICALLY_CHALLENGING: &'static str =
    "W(?s:.*)at work(?s:.*)ave you found mos(?s:.*)challenging(?s:.*)caree(?s:.*)wh(?s:.*)\\?";

pub const QUESTION_WORK_PROUD_OF: &'static str =
    "W(?s:.*)at work(?s:.*)ave you done that you(?s:.*)particularl(?s:.*)proud o(?s:.*)and why\\?";

pub const QUESTION_HAPPIEST_CAREER: &'static str =
    "W(?s:.*)en have you been happiest in your professiona(?s:.*)caree(?s:.*)and why\\?";

pub const QUESTION_UNHAPPIEST_CAREER: &'static str =
    "W(?s:.*)en have you been unhappiest in your professiona(?s:.*)caree(?s:.*)and why\\?";

pub const QUESTION_VALUE_REFLECTED: &'static str =
    "F(?s:.*)r one of Oxide(?s:.*)s values(?s:.*)describe an example of ho(?s:.*)it wa(?s:.*)reflected(?s:.*)particula(?s:.*)body(?s:.*)you(?s:.*)work\\.";

pub const QUESTION_VALUE_VIOLATED: &'static str =
    "F(?s:.*)r one of Oxide(?s:.*)s values(?s:.*)describe an example of ho(?s:.*)it wa(?s:.*)violated(?s:.*)you(?s:.*)organization o(?s:.*)work\\.";

pub const QUESTION_VALUES_IN_TENSION: &'static str =
    "F(?s:.*)r a pair of Oxide(?s:.*)s values(?s:.*)describe a time in whic(?s:.*)the tw(?s:.*)values(?s:.*)tensio(?s:.*)for(?s:.*)your(?s:.*)and how yo(?s:.*)resolved it\\.";

pub const QUESTION_WHY_OXIDE: &'static str = "W(?s:.*)y do you want to work for Oxide\\?";

// The headings and prompts of the sample sections.
pub const WORK_SAMPLE_HEADING: &'static str = "Work sample\\(s\\)";

pub const WORK_SAMPLE_PROMPT: &'static str =
    "If(?s:.*)his work is entirely proprietary(?s:.*)please describe it as fully as y(?s:.*)can, providing necessary context\\.";

pub const WORK_SAMPLE_RETROSPECT: &'static str = "What would you have done differently\\?";

pub const WORK_SAMPLE_QUESTIONS: &'static str =
    "Some questions(?s:.*)o have in mind as you describe them:";

pub const WORK_SAMPLES: &'static str = "Work samples";

pub const WRITING_SAMPLE_HEADING: &'static str = "Writing sample\\(s\\)";

pub const WRITING_SAMPLE_PROMPT: &'static str =
    "Please submit at least one writing sample \\(and no more tha(?s:.*)three\\) that you feel represent(?s:.*)you(?s:.*)providin(?s:.*)links if(?s:.*)necessary\\.";

pub const WRITING_SAMPLES: &'static str = "Writing samples";

pub const ANALYSIS_SAMPLE_HEADING: &'static str = "Analysis sample\\(s\\)$";

pub const ANALYSIS_SAMPLE_PROMPT: &'static str =
    "please recount a(?s:.*)incident(?s:.*)which you analyzed syste(?s:.*)misbehavior(?s:.*)including as much technical detail as you can recall\\.";

pub const ANALYSIS_SAMPLES: &'static str = "Analysis samples";

pub const PRESENTATION_SAMPLE_HEADING: &'static str = "Presentation sample\\(s\\)";

pub const PRESENTATION_SAMPLE_PROMPT: &'static str =
    "I(?s:.*)you don\u{2019}t have a publicl(?s:.*)available presentation(?s:.*)pleas(?s:.*)describe a topic on which you have presented in th(?s:.*)past\\.";

pub const PRESENTATION_SAMPLES: &'static str = "Presentation samples";

pub const EXPLORATORY_SAMPLE_HEADING: &'static str = "Exploratory sample\\(s\\)";

pub const EXPLORATORY_SAMPLE_PROMPT: &'static str =
    "What\u{2019}s an example o(?s:.*)something that you needed to explore, reverse engineer, decipher or otherwise figure out a(?s:.*)part of a program or project and how did you do it\\? Please provide as much detail as you ca(?s:.*)recall\\.";

pub const EXPLORATORY_SAMPLES: &'static str = "Exploratory samples";

pub const QUESTIONNAIRE: &'static str = "Questionnaire";

pub const END_OF_DOCUMENT: &'static str = "";

/// The long-text fields that are extracted from a materials document.
#[derive(Debug, Clone, Copy, PartialEq, Eq, Structural)]
pub enum Field {
    WorkSamples,
    WritingSamples,
    AnalysisSamples,
    PresentationSamples,
    ExploratorySamples,
    QuestionTechnicallyChallenging,
    QuestionProudOf,
    QuestionHappiest,
    QuestionUnhappiest,
    QuestionValueReflected,
    QuestionValueViolated,
    QuestionValuesInTension,
    QuestionWhyOxide,
}

/// The boundary pairs of a field, in the order in which they are tried.
pub open spec fn field_pairs(field: Field) -> Seq<(Seq<char>, Seq<char>)> {
    match field {
        Field::WorkSamples => seq![
            (WORK_SAMPLE_HEADING@, WRITING_SAMPLES@),
            (WORK_SAMPLE_PROMPT@, WRITING_SAMPLES@),
            (WORK_SAMPLE_RETROSPECT@, EXPLORATORY_SAMPLES@),
            (WORK_SAMPLE_QUESTIONS@, EXPLORATORY_SAMPLES@),
            (WORK_SAMPLES@, EXPLORATORY_SAMPLES@),
        ],
        Field::WritingSamples => seq![
            (WRITING_SAMPLE_HEADING@, ANALYSIS_SAMPLES@),
            (WRITING_SAMPLE_PROMPT@, ANALYSIS_SAMPLES@),
            (WRITING_SAMPLES@, ANALYSIS_SAMPLES@),
        ],
        Field::AnalysisSamples => seq![
            (ANALYSIS_SAMPLE_HEADING@, PRESENTATION_SAMPLES@),
            (ANALYSIS_SAMPLE_PROMPT@, PRESENTATION_SAMPLES@),
            (ANALYSIS_SAMPLES@, PRESENTATION_SAMPLES@),
        ],
        Field::PresentationSamples => seq![
            (PRESENTATION_SAMPLE_HEADING@, QUESTIONNAIRE@),
            (PRESENTATION_SAMPLE_PROMPT@, QUESTIONNAIRE@),
            (PRESENTATION_SAMPLES@, QUESTIONNAIRE@),
        ],
        Field::ExploratorySamples => seq![
            (EXPLORATORY_SAMPLE_HEADING@, QUESTIONNAIRE@),
            (EXPLORATORY_SAMPLE_PROMPT@, QUESTIONNAIRE@),
            (EXPLORATORY_SAMPLES@, QUESTIONNAIRE@),
        ],
        Field::QuestionTechnicallyChallenging => seq![
            (QUESTION_TECHNICALLY_CHALLENGING@, QUESTION_WORK_PROUD_OF@),
        ],
        Field::QuestionProudOf => seq![(QUESTION_WORK_PROUD_OF@, QUESTION_HAPPIEST_CAREER@)],
        Field::QuestionHappiest => seq![(QUESTION_HAPPIEST_CAREER@, QUESTION_UNHAPPIEST_CAREER@)],
        Field::QuestionUnhappiest => seq![
            (QUESTION_UNHAPPIEST_CAREER@, QUESTION_VALUE_REFLECTED@),
        ],
        Field::QuestionValueReflected => seq![
            (QUESTION_VALUE_REFLECTED@, QUESTION_VALUE_VIOLATED@),
        ],
        Field::QuestionValueViolated => seq![
            (QUESTION_VALUE_VIOLATED@, QUESTION_VALUES_IN_TENSION@),
        ],
        Field::QuestionValuesInTension => seq![(QUESTION_VALUES_IN_TENSION@, QUESTION_WHY_OXIDE@)],
        Field::QuestionWhyOxide => seq![(QUESTION_WHY_OXIDE@, END_OF_DOCUMENT@)],
    }
}

/// The name under which a field is known.
pub open spec fn field_name(field: Field) -> Seq<char> {
    match field {
        Field::WorkSamples => "work_samples"@,
        Field::WritingSamples => "writing_samples"@,
        Field::AnalysisSamples => "analysis_samples"@,
        Field::PresentationSamples => "presentation_samples"@,
        Field::ExploratorySamples => "exploratory_samples"@,
        Field::QuestionTechnicallyChallenging => "question_technically_challenging"@,
        Field::QuestionProudOf => "question_proud_of"@,
        Field::QuestionHappiest => "question_happiest"@,
        Field::QuestionUnhappiest => "question_unhappiest"@,
        Field::QuestionValueReflected => "question_value_reflected"@,
        Field::QuestionValueViolated => "question_value_violated"@,
        Field::QuestionValuesInTension => "question_values_in_tension"@,
        Field::QuestionWhyOxide => "question_why_oxide"@,
    }
}

/// A boundary pair from its two patterns.
fn pair(start: &str, end: &str) -> (p: BoundaryPair)
    ensures
        p@ == (start@, end@),
{
    BoundaryPair { start: start.to_owned(), end: end.to_owned() }
}

/// A chain of one pair.
fn chain1(a: BoundaryPair) -> (v: Vec<BoundaryPair>)
    ensures
        pairs_of(v@) == seq![a@],
{
    let mut v: Vec<BoundaryPair> = Vec::new();
    v.push(a);
    assert(pairs_of(v@) =~= seq![a@]);
    v
}

/// A chain of three pairs.
fn chain3(a: BoundaryPair, b: BoundaryPair, c: BoundaryPair) -> (v: Vec<BoundaryPair>)
    ensures
        pairs_of(v@) == seq![a@, b@, c@],
{
    let mut v: Vec<BoundaryPair> = Vec::new();
    v.push(a);
    v.push(b);
    v.push(c);
    assert(pairs_of(v@) =~= seq![a@, b@, c@]);
    v
}

/// A chain of five pairs.
fn chain5(
    a: BoundaryPair,
    b: BoundaryPair,
    c: BoundaryPair,
    d: BoundaryPair,
    e: BoundaryPair,
) -> (v: Vec<BoundaryPair>)
    ensures
        pairs_of(v@) == seq![a@, b@, c@, d@, e@],
{
    let mut v: Vec<BoundaryPair> = Vec::new();
    v.push(a);
    v.push(b);
    v.push(c);
    v.push(d);
    v.push(e);
    assert(pairs_of(v@) =~= seq![a@, b@, c@, d@, e@]);
    v
}

/// The name under which a field is known.
pub fn name_of(field: Field) -> (name: &'static str)
    ensures
        name@ == field_name(field),
{
    match field {
        Field::WorkSamples => "work_samples",
        Field::WritingSamples => "writing_samples",
        Field::AnalysisSamples => "analysis_samples",
        Field::PresentationSamples => "presentation_samples",
        Field::ExploratorySamples => "exploratory_samples",
        Field::QuestionTechnicallyChallenging => "question_technically_challenging",
        Field::QuestionProudOf => "question_proud_of",
        Field::QuestionHappiest => "question_happiest",
        Field::QuestionUnhappiest => "question_unhappiest",
        Field::QuestionValueReflected => "question_value_reflected",
        Field::QuestionValueViolated => "question_value_violated",
        Field::QuestionValuesInTension => "question_values_in_tension",
        Field::QuestionWhyOxide => "question_why_oxide",
    }
}

/// The extraction rule of a field.
pub fn rule_for(field: Field) -> (rule: FieldExtractionRule)
    ensures
        rule.name@ == field_name(field),
        rule.pairs() == field_pairs(field),
{
    let candidates = match field {
        Field::WorkSamples => chain5(
            pair(WORK_SAMPLE_HEADING, WRITING_SAMPLES),
            pair(WORK_SAMPLE_PROMPT, WRITING_SAMPLES),
            pair(WORK_SAMPLE_RETROSPECT, EXPLORATORY_SAMPLES),
            pair(WORK_SAMPLE_QUESTIONS, EXPLORATORY_SAMPLES),
            pair(WORK_SAMPLES, EXPLORATORY_SAMPLES),
        ),
        Field::WritingSamples => chain3(
            pair(WRITING_SAMPLE_HEADING, ANALYSIS_SAMPLES),
            pair(WRITING_SAMPLE_PROMPT, ANALYSIS_SAMPLES),
            pair(WRITING_SAMPLES, ANALYSIS_SAMPLES),
        ),
        Field::AnalysisSamples => chain3(
            pair(ANALYSIS_SAMPLE_HEADING, PRESENTATION_SAMPLES),
            pair(ANALYSIS_SAMPLE_PROMPT, PRESENTATION_SAMPLES),
            pair(ANALYSIS_SAMPLES, PRESENTATION_SAMPLES),
        ),
        Field::PresentationSamples => chain3(
            pair(PRESENTATION_SAMPLE_HEADING, QUESTIONNAIRE),
            pair(PRESENTATION_SAMPLE_PROMPT, QUESTIONNAIRE),
            pair(PRESENTATION_SAMPLES, QUESTIONNAIRE),
        ),
        Field::ExploratorySamples => chain3(
            pair(EXPLORATORY_SAMPLE_HEADING, QUESTIONNAIRE),
            pair(EXPLORATORY_SAMPLE_PROMPT, QUESTIONNAIRE),
            pair(EXPLORATORY_SAMPLES, QUESTIONNAIRE),
        ),
        Field::QuestionTechnicallyChallenging => chain1(
            pair(QUESTION_TECHNICALLY_CHALLENGING, QUESTION_WORK_PROUD_OF),
        ),
        Field::QuestionProudOf => chain1(pair(QUESTION_WORK_PROUD_OF, QUESTION_HAPPIEST_CAREER)),
        Field::QuestionHappiest => chain1(
            pair(QUESTION_HAPPIEST_CAREER, QUESTION_UNHAPPIEST_CAREER),
        ),
        Field::QuestionUnhappiest => chain1(
            pair(QUESTION_UNHAPPIEST_CAREER, QUESTION_VALUE_REFLECTED),
        ),
        Field::QuestionValueReflected => chain1(
            pair(QUESTION_VALUE_REFLECTED, QUESTION_VALUE_VIOLATED),
        ),
        Field::QuestionValueViolated => chain1(
            pair(QUESTION_VALUE_VIOLATED, QUESTION_VALUES_IN_TENSION),
        ),
        Field::QuestionValuesInTension => chain1(
            pair(QUESTION_VALUES_IN_TENSION, QUESTION_WHY_OXIDE),
        ),
        Field::QuestionWhyOxide => chain1(pair(QUESTION_WHY_OXIDE, END_OF_DOCUMENT)),
    };
    FieldExtractionRule { name: name_of(field).to_owned(), candidates }
}

} // verus!
