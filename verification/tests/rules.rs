use cio::extract::parse_question;
use cio::rules::{
    name_of, rule_for, Field, ANALYSIS_SAMPLE_HEADING, PRESENTATION_SAMPLES,
    PRESENTATION_SAMPLE_PROMPT, QUESTIONNAIRE, QUESTION_WHY_OXIDE, WORK_SAMPLE_HEADING,
    WRITING_SAMPLES,
};

const FIELDS: [Field; 13] = [
    Field::WorkSamples,
    Field::WritingSamples,
    Field::AnalysisSamples,
    Field::PresentationSamples,
    Field::ExploratorySamples,
    Field::QuestionTechnicallyChallenging,
    Field::QuestionProudOf,
    Field::QuestionHappiest,
    Field::QuestionUnhappiest,
    Field::QuestionValueReflected,
    Field::QuestionValueViolated,
    Field::QuestionValuesInTension,
    Field::QuestionWhyOxide,
];

#[test]
fn rules_carry_their_names_and_chains() {
    let lengths = [5, 3, 3, 3, 3, 1, 1, 1, 1, 1, 1, 1, 1];
    for (field, length) in FIELDS.iter().zip(lengths) {
        let rule = rule_for(*field);
        assert_eq!(rule.name, name_of(*field));
        assert_eq!(rule.candidates.len(), length);
    }
    let work = rule_for(Field::WorkSamples);
    assert_eq!(work.name, "work_samples");
    assert_eq!(work.candidates[0].start, WORK_SAMPLE_HEADING);
    assert_eq!(work.candidates[0].end, WRITING_SAMPLES);
    assert_eq!(work.candidates[4].start, "Work samples");
    assert_eq!(work.candidates[4].end, "Exploratory samples");
    let why = rule_for(Field::QuestionWhyOxide);
    assert_eq!(why.candidates[0].start, QUESTION_WHY_OXIDE);
    assert_eq!(why.candidates[0].end, "");
}

#[test]
fn rules_resolve_by_fallback() {
    let rule = rule_for(Field::PresentationSamples);
    let doc = "If you don\u{2019}t have a publicly available presentation, please describe a topic on which you have presented in the past.\nOn tides.\nQuestionnaire";
    assert_eq!(rule.resolve(doc), Ok("On tides.".to_string()));
    assert_eq!(
        rule.resolve(doc),
        parse_question(PRESENTATION_SAMPLE_PROMPT, QUESTIONNAIRE, doc)
    );
    assert_eq!(rule.resolve(""), Ok(String::new()));
    assert_eq!(rule.resolve("Presentation samples only"), Ok(String::new()));
}

#[test]
fn heading_at_the_end_of_the_text() {
    // The analysis heading is only taken at the very end of the text, where
    // nothing can follow it; the plain heading is found anywhere.
    let doc = "Analysis sample(s)\nlooked into it\nPresentation samples";
    assert_eq!(parse_question(ANALYSIS_SAMPLE_HEADING, PRESENTATION_SAMPLES, doc), Ok(String::new()));
    assert_eq!(
        rule_for(Field::AnalysisSamples).resolve("Analysis samples\nlooked into it\nPresentation samples"),
        Ok("looked into it".to_string())
    );
}
