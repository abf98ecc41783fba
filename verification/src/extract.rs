//! Field extraction: carving one answer out of a free-form document.
//!
//! A logical field is described by boundary pairs: a pattern for the place
//! where the answer's question starts and a pattern for the place where the
//! next question starts. The text between the two is captured and cleaned.
//! Several pairs for one field form a fallback chain, tried in order.

use vstd::prelude::*;
use vstd::string::StringExecFns;
use crate::text::{
    chars_of, has_substring, is_trimmed, lemma_remove_all_shrinks, lemma_subrange_has_substring,
    lemma_trimmed_is_subrange, lemma_trimmed_is_trimmed, occurs_at, option_text, remove_all,
    remove_occurrences, string_of, strip_one_char_start, strip_one_leading_char, trim, trimmed,
};

verus! {

// ---------------------------------------------------------------------------
// The regular-expression engine
// ---------------------------------------------------------------------------
#[verifier::external_type_specification]
#[verifier::external_body]
pub struct ExRegexError(regex::Error);

/// Whether `regex::Regex::new` accepts `pattern`.
pub uninterp spec fn regex_compiles(pattern: Seq<char>) -> bool;

/// What the first capture group of `pattern` holds in the leftmost match of
/// `pattern` in `text`, as `regex::Regex::captures` finds it: `None` where
/// there is no match or the group took no part in it. Only meaningful where
/// `regex_compiles(pattern)`.
pub uninterp spec fn regex_first_group(pattern: Seq<char>, text: Seq<char>) -> Option<Seq<char>>;

/// Compiles `pattern` with `regex::Regex::new` and searches `text` once with
/// `Regex::captures`. The contract claims that compiling fails or succeeds
/// by the pattern alone, and that the text handed back is that of capture
/// group 1 of the match found; it says nothing of which patterns compile or
/// what they match.
#[verifier::external_body]
fn search_first_group(pattern: &str, text: &str) -> (r: Result<Option<String>, regex::Error>)
    ensures
        r.is_ok() == regex_compiles(pattern@),
        r matches Ok(found) ==> option_text(found) == regex_first_group(pattern@, text@),
{
    let re = regex::Regex::new(pattern)?;
    match re.captures(text) {
        Some(caps) => match caps.get(1) {
            Some(m) => Ok(Some(m.as_str().to_string())),
            None => Ok(None),
        },
        None => Ok(None),
    }
}

// ---------------------------------------------------------------------------
// Boundary pairs and their meaning
// ---------------------------------------------------------------------------
/// Why an extraction could not be carried out.
#[derive(Debug, Clone, Copy, PartialEq, Eq, Structural)]
pub enum ExtractError {
    /// The boundary expression built from a pair is not a regular expression.
    InvalidPattern,
}

/// A start pattern and an end pattern that enclose one answer.
#[derive(Debug, Clone)]
pub struct BoundaryPair {
    pub start: String,
    pub end: String,
}

impl View for BoundaryPair {
    type V = (Seq<char>, Seq<char>);

    open spec fn view(&self) -> (Seq<char>, Seq<char>) {
        (self.start@, self.end@)
    }
}

/// A named logical field with its boundary pairs, most specific first.
#[derive(Debug, Clone)]
pub struct FieldExtractionRule {
    pub name: String,
    pub candidates: Vec<BoundaryPair>,
}

impl FieldExtractionRule {
    /// The boundary pairs of the rule, in the order in which they are tried.
    pub open spec fn pairs(&self) -> Seq<(Seq<char>, Seq<char>)> {
        pairs_of(self.candidates@)
    }
}

/// The views of a sequence of boundary pairs.
pub open spec fn pairs_of(candidates: Seq<BoundaryPair>) -> Seq<(Seq<char>, Seq<char>)> {
    candidates.map_values(|p: BoundaryPair| p@)
}

/// The one expression that is searched for a pair: the start pattern, then
/// a group that captures anything, line breaks included, then the end
/// pattern.
pub open spec fn boundary_expression(start: Seq<char>, end: Seq<char>) -> Seq<char> {
    start + "(?s)(.*)"@ + end
}

/// Whether `b` is one of the boilerplate strings that are taken out of
/// every capture.
pub open spec fn is_boilerplate(b: Seq<char>) -> bool {
    ||| b == "________________"@
    ||| b == "Oxide Candidate Materials: Technical Program Manager"@
    ||| b == "Oxide Candidate Materials"@
    ||| b == "Work sample(s)"@
}

/// Whether a text holds none of the boilerplate strings.
pub open spec fn free_of_boilerplate(text: Seq<char>) -> bool {
    forall|b: Seq<char>| #[trigger] is_boilerplate(b) ==> !has_substring(text, b)
}

/// The text after one round of taking the boilerplate strings out, one
/// after the other.
pub open spec fn boilerplate_round(text: Seq<char>) -> Seq<char> {
    remove_all(
        remove_all(
            remove_all(
                remove_all(text, "________________"@),
                "Oxide Candidate Materials: Technical Program Manager"@,
            ),
            "Oxide Candidate Materials"@,
        ),
        "Work sample(s)"@,
    )
}

/// The captured text with the known boilerplate taken out: round after
/// round, as long as a round takes something out. Taking one string out
/// can join the halves of another, so one round is not always enough.
pub open spec fn without_boilerplate(captured: Seq<char>) -> Seq<char>
    decreases captured.len(),
{
    let next = boilerplate_round(captured);
    if next.len() < captured.len() {
        without_boilerplate(next)
    } else {
        captured
    }
}

/// The answer that a capture stands for: boilerplate out, then one leading
/// colon and the white space around it, then trimmed.
pub open spec fn clean_answer(captured: Seq<char>) -> Seq<char> {
    trimmed(strip_one_leading_char(trimmed(without_boilerplate(captured)), ':'))
}

/// The answer for what a search found: the cleaned capture, or nothing
/// where nothing was found.
pub open spec fn answer_of(found: Option<Seq<char>>) -> Seq<char> {
    match found {
        Some(captured) => clean_answer(captured),
        None => Seq::empty(),
    }
}

/// What extracting with one boundary pair gives: `None` where the document
/// is not empty and the boundary expression does not compile, otherwise the
/// answer, which is empty for an empty document and where nothing matches.
pub open spec fn extracted(start: Seq<char>, end: Seq<char>, document: Seq<char>) -> Option<
    Seq<char>,
> {
    if document.len() == 0 {
        Some(Seq::empty())
    } else if !regex_compiles(boundary_expression(start, end)) {
        None
    } else {
        Some(answer_of(regex_first_group(boundary_expression(start, end), document)))
    }
}

/// What a fallback chain gives: the first answer that is not empty, asking
/// the pairs in order; empty where every pair gives an empty answer; `None`
/// where a pair that had to be asked does not compile.
pub open spec fn first_extracted(
    pairs: Seq<(Seq<char>, Seq<char>)>,
    document: Seq<char>,
) -> Option<Seq<char>>
    decreases pairs.len(),
{
    if pairs.len() == 0 {
        Some(Seq::empty())
    } else {
        match extracted(pairs[0].0, pairs[0].1, document) {
            None => None,
            Some(answer) => if answer.len() > 0 {
                Some(answer)
            } else {
                first_extracted(pairs.drop_first(), document)
            },
        }
    }
}

// ---------------------------------------------------------------------------
// Laws
// ---------------------------------------------------------------------------
/// A cleaned answer neither starts nor ends with white space.
pub proof fn lemma_clean_answer_is_trimmed(captured: Seq<char>)
    ensures
        is_trimmed(clean_answer(captured)),
{
    lemma_trimmed_is_trimmed(strip_one_leading_char(trimmed(without_boilerplate(captured)), ':'));
}

/// Extraction from an empty document gives the empty answer, whatever the
/// boundary pair, and every answer is trimmed.
pub proof fn lemma_extracted_empty_and_trimmed(
    start: Seq<char>,
    end: Seq<char>,
    document: Seq<char>,
)
    ensures
        document.len() == 0 ==> extracted(start, end, document) == Some(Seq::<char>::empty()),
        extracted(start, end, document) matches Some(answer) ==> is_trimmed(answer),
{
    if document.len() > 0 && regex_compiles(boundary_expression(start, end)) {
        match regex_first_group(boundary_expression(start, end), document) {
            Some(captured) => lemma_clean_answer_is_trimmed(captured),
            None => {},
        }
    }
}

/// A round that takes nothing out leaves a text free of boilerplate, and
/// no round lengthens a text.
pub proof fn lemma_boilerplate_round(text: Seq<char>)
    ensures
        boilerplate_round(text).len() <= text.len(),
        boilerplate_round(text).len() == text.len() ==> free_of_boilerplate(text),
{
    reveal_strlit("________________");
    reveal_strlit("Oxide Candidate Materials: Technical Program Manager");
    reveal_strlit("Oxide Candidate Materials");
    reveal_strlit("Work sample(s)");
    let a = remove_all(text, "________________"@);
    let b = remove_all(a, "Oxide Candidate Materials: Technical Program Manager"@);
    let c = remove_all(b, "Oxide Candidate Materials"@);
    lemma_remove_all_shrinks(text, "________________"@);
    lemma_remove_all_shrinks(a, "Oxide Candidate Materials: Technical Program Manager"@);
    lemma_remove_all_shrinks(b, "Oxide Candidate Materials"@);
    lemma_remove_all_shrinks(c, "Work sample(s)"@);
}

/// What is left once the boilerplate has been taken out holds none of it.
pub proof fn lemma_without_boilerplate_is_free(captured: Seq<char>)
    ensures
        free_of_boilerplate(without_boilerplate(captured)),
        without_boilerplate(captured).len() <= captured.len(),
    decreases captured.len(),
{
    lemma_boilerplate_round(captured);
    let next = boilerplate_round(captured);
    if next.len() < captured.len() {
        lemma_without_boilerplate_is_free(next);
    }
}

/// A piece of a text that is free of boilerplate is free of it too.
pub proof fn lemma_piece_is_free(text: Seq<char>, from: int, to: int)
    requires
        0 <= from <= to <= text.len(),
        free_of_boilerplate(text),
    ensures
        free_of_boilerplate(text.subrange(from, to)),
{
    assert forall|b: Seq<char>| #[trigger] is_boilerplate(b) implies !has_substring(
        text.subrange(from, to),
        b,
    ) by {
        if has_substring(text.subrange(from, to), b) {
            lemma_subrange_has_substring(text, from, to, b);
        }
    }
}

/// The empty text is free of boilerplate.
pub proof fn lemma_empty_is_free()
    ensures
        free_of_boilerplate(Seq::<char>::empty()),
{
    reveal_strlit("________________");
    reveal_strlit("Oxide Candidate Materials: Technical Program Manager");
    reveal_strlit("Oxide Candidate Materials");
    reveal_strlit("Work sample(s)");
    assert forall|b: Seq<char>| #[trigger] is_boilerplate(b) implies !has_substring(
        Seq::<char>::empty(),
        b,
    ) by {
        assert forall|i: int| !occurs_at(Seq::<char>::empty(), b, i) by {}
    }
}

/// A cleaned answer holds none of the boilerplate strings.
pub proof fn lemma_clean_answer_is_free(captured: Seq<char>)
    ensures
        free_of_boilerplate(clean_answer(captured)),
{
    let plain = without_boilerplate(captured);
    let first = trimmed(plain);
    let uncolon = strip_one_leading_char(first, ':');
    lemma_without_boilerplate_is_free(captured);
    let (c, d) = lemma_trimmed_is_subrange(plain);
    lemma_piece_is_free(plain, c, d);
    if first.len() > 0 && first[0] == ':' {
        assert(uncolon =~= first.subrange(1, first.len() as int));
        lemma_piece_is_free(first, 1, first.len() as int);
    }
    let (a, z) = lemma_trimmed_is_subrange(uncolon);
    lemma_piece_is_free(uncolon, a, z);
}

/// Every extracted answer holds none of the boilerplate strings, whatever
/// the document and the boundary pair.
pub proof fn lemma_extracted_is_free(start: Seq<char>, end: Seq<char>, document: Seq<char>)
    ensures
        extracted(start, end, document) matches Some(answer) ==> free_of_boilerplate(answer),
{
    lemma_empty_is_free();
    if document.len() > 0 && regex_compiles(boundary_expression(start, end)) {
        match regex_first_group(boundary_expression(start, end), document) {
            Some(captured) => lemma_clean_answer_is_free(captured),
            None => {},
        }
    }
}

/// Whatever a fallback chain gives holds none of the boilerplate strings.
pub proof fn lemma_fallback_is_free(pairs: Seq<(Seq<char>, Seq<char>)>, document: Seq<char>)
    ensures
        first_extracted(pairs, document) matches Some(answer) ==> free_of_boilerplate(answer),
    decreases pairs.len(),
{
    lemma_empty_is_free();
    if pairs.len() > 0 {
        lemma_extracted_is_free(pairs[0].0, pairs[0].1, document);
        lemma_fallback_is_free(pairs.drop_first(), document);
    }
}

/// Fallback is ordered by priority: where every pair before position `i`
/// gives an empty answer and the pair at `i` gives one that is not empty,
/// the chain gives what the pair at `i` gives when asked directly.
pub proof fn lemma_fallback_priority(
    pairs: Seq<(Seq<char>, Seq<char>)>,
    document: Seq<char>,
    i: int,
)
    requires
        0 <= i < pairs.len(),
        forall|j: int|
            0 <= j < i ==> #[trigger] extracted(pairs[j].0, pairs[j].1, document) == Some(
                Seq::<char>::empty(),
            ),
        extracted(pairs[i].0, pairs[i].1, document) matches Some(answer) && answer.len() > 0,
    ensures
        first_extracted(pairs, document) == extracted(pairs[i].0, pairs[i].1, document),
    decreases i,
{
    if i > 0 {
        let rest = pairs.drop_first();
        assert(extracted(pairs[0].0, pairs[0].1, document) == Some(Seq::<char>::empty()));
        assert forall|j: int| 0 <= j < i - 1 implies #[trigger] extracted(
            rest[j].0,
            rest[j].1,
            document,
        ) == Some(Seq::<char>::empty()) by {
            assert(rest[j] == pairs[j + 1]);
            assert(extracted(pairs[j + 1].0, pairs[j + 1].1, document) == Some(
                Seq::<char>::empty(),
            ));
        }
        assert(rest[i - 1] == pairs[i]);
        lemma_fallback_priority(rest, document, i - 1);
    }
}

/// Where every pair of a chain gives an empty answer, so does the chain;
/// in particular for an empty document.
pub proof fn lemma_fallback_all_empty(pairs: Seq<(Seq<char>, Seq<char>)>, document: Seq<char>)
    requires
        forall|j: int|
            0 <= j < pairs.len() ==> #[trigger] extracted(pairs[j].0, pairs[j].1, document)
                == Some(Seq::<char>::empty()),
    ensures
        first_extracted(pairs, document) == Some(Seq::<char>::empty()),
    decreases pairs.len(),
{
    if pairs.len() > 0 {
        let rest = pairs.drop_first();
        assert(extracted(pairs[0].0, pairs[0].1, document) == Some(Seq::<char>::empty()));
        assert forall|j: int| 0 <= j < rest.len() implies #[trigger] extracted(
            rest[j].0,
            rest[j].1,
            document,
        ) == Some(Seq::<char>::empty()) by {
            assert(rest[j] == pairs[j + 1]);
            assert(extracted(pairs[j + 1].0, pairs[j + 1].1, document) == Some(
                Seq::<char>::empty(),
            ));
        }
        lemma_fallback_all_empty(rest, document);
    }
}

/// Whatever a fallback chain gives is trimmed.
pub proof fn lemma_fallback_is_trimmed(pairs: Seq<(Seq<char>, Seq<char>)>, document: Seq<char>)
    ensures
        first_extracted(pairs, document) matches Some(answer) ==> is_trimmed(answer),
    decreases pairs.len(),
{
    if pairs.len() > 0 {
        lemma_extracted_empty_and_trimmed(pairs[0].0, pairs[0].1, document);
        lemma_fallback_is_trimmed(pairs.drop_first(), document);
    }
}

/// A fallback chain over an empty document gives the empty answer.
pub proof fn lemma_fallback_empty_document(pairs: Seq<(Seq<char>, Seq<char>)>)
    ensures
        first_extracted(pairs, Seq::<char>::empty()) == Some(Seq::<char>::empty()),
{
    lemma_fallback_all_empty(pairs, Seq::<char>::empty());
}

// ---------------------------------------------------------------------------
// Executable functions
// ---------------------------------------------------------------------------
/// One round of taking the boilerplate strings out of a text.
pub fn strip_boilerplate_once(text: &Vec<char>) -> (r: Vec<char>)
    ensures
        r@ == boilerplate_round(text@),
{
    let a = remove_occurrences(text, &chars_of("________________"));
    let b = remove_occurrences(
        &a,
        &chars_of("Oxide Candidate Materials: Technical Program Manager"),
    );
    let c = remove_occurrences(&b, &chars_of("Oxide Candidate Materials"));
    remove_occurrences(&c, &chars_of("Work sample(s)"))
}

/// Takes the boilerplate strings out of a text until none is left.
pub fn strip_boilerplate(text: Vec<char>) -> (r: Vec<char>)
    ensures
        r@ == without_boilerplate(text@),
        free_of_boilerplate(r@),
{
    proof {
        lemma_without_boilerplate_is_free(text@);
    }
    let mut current = text;
    loop
        invariant
            without_boilerplate(current@) == without_boilerplate(text@),
        ensures
            current@ == without_boilerplate(text@),
        decreases current.len(),
    {
        let next = strip_boilerplate_once(&current);
        if next.len() < current.len() {
            current = next;
        } else {
            break ;
        }
    }
    current
}

/// Cleans a captured text into an answer.
pub fn clean_capture(captured: &str) -> (answer: String)
    ensures
        answer@ == clean_answer(captured@),
        is_trimmed(answer@),
        free_of_boilerplate(answer@),
{
    let plain = strip_boilerplate(chars_of(captured));
    let first = trim(&plain);
    let uncolon = strip_one_char_start(&first, ':');
    let answer = trim(&uncolon);
    proof {
        lemma_clean_answer_is_trimmed(captured@);
        lemma_clean_answer_is_free(captured@);
    }
    string_of(&answer)
}

/// The answer for what a search found.
pub fn answer_from_search(found: &Option<String>) -> (answer: String)
    ensures
        answer@ == answer_of(option_text(*found)),
        is_trimmed(answer@),
        free_of_boilerplate(answer@),
{
    proof {
        lemma_empty_is_free();
    }
    match found {
        Some(captured) => clean_capture(captured.as_str()),
        None => String::new(),
    }
}

/// Extracts the answer that stands between the start pattern `q1` and the
/// end pattern `q2` in a document.
///
/// An empty document gives the empty answer at once. Otherwise the boundary
/// expression is compiled and searched once; no match gives the empty
/// answer, a match gives the cleaned capture. The only error is a boundary
/// expression that does not compile.
pub fn parse_question(q1: &str, q2: &str, materials_contents: &str) -> (r: Result<
    String,
    ExtractError,
>)
    ensures
        r matches Ok(answer) ==> extracted(q1@, q2@, materials_contents@) == Some(answer@)
            && is_trimmed(answer@) && free_of_boilerplate(answer@),
        r matches Err(e) ==> e == ExtractError::InvalidPattern && extracted(
            q1@,
            q2@,
            materials_contents@,
        ) is None,
        materials_contents@.len() == 0 ==> (r matches Ok(answer) && answer@.len() == 0),
{
    proof {
        lemma_empty_is_free();
    }
    if materials_contents.is_empty() {
        return Ok(String::new());
    }
    let mut expression = String::from_str(q1);
    expression.append("(?s)(.*)");
    expression.append(q2);
    match search_first_group(expression.as_str(), materials_contents) {
        Ok(found) => Ok(answer_from_search(&found)),
        Err(_) => Err(ExtractError::InvalidPattern),
    }
}

/// Resolves a fallback chain: asks the pairs in order and keeps the first
/// answer that is not empty.
pub fn first_answer(candidates: &Vec<BoundaryPair>, document: &str) -> (r: Result<
    String,
    ExtractError,
>)
    ensures
        r matches Ok(answer) ==> first_extracted(pairs_of(candidates@), document@) == Some(
            answer@,
        ) && is_trimmed(answer@) && free_of_boilerplate(answer@),
        r matches Err(e) ==> e == ExtractError::InvalidPattern && first_extracted(
            pairs_of(candidates@),
            document@,
        ) is None,
        document@.len() == 0 ==> (r matches Ok(answer) && answer@.len() == 0),
{
    let ghost pairs = pairs_of(candidates@);
    let mut i: usize = 0;
    assert(pairs.skip(0) =~= pairs);
    proof {
        lemma_empty_is_free();
    }
    while i < candidates.len()
        invariant
            i <= candidates.len(),
            pairs == pairs_of(candidates@),
            first_extracted(pairs, document@) == first_extracted(pairs.skip(i as int), document@),
        decreases candidates.len() - i,
    {
        let ghost rest = pairs.skip(i as int);
        assert(rest[0] == candidates@[i as int]@);
        assert(rest.drop_first() =~= pairs.skip(i + 1));
        let pair = &candidates[i];
        match parse_question(pair.start.as_str(), pair.end.as_str(), document) {
            Ok(answer) => {
                if !answer.as_str().is_empty() {
                    return Ok(answer);
                }
            },
            Err(e) => {
                return Err(e);
            },
        }
        i += 1;
    }
    Ok(String::new())
}

impl FieldExtractionRule {
    /// The answer that the rule finds in a document.
    pub fn resolve(&self, document: &str) -> (r: Result<String, ExtractError>)
        ensures
            r matches Ok(answer) ==> first_extracted(self.pairs(), document@) == Some(answer@)
                && is_trimmed(answer@) && free_of_boilerplate(answer@),
            r matches Err(e) ==> e == ExtractError::InvalidPattern && first_extracted(
                self.pairs(),
                document@,
            ) is None,
            document@.len() == 0 ==> (r matches Ok(answer) && answer@.len() == 0),
    {
        first_answer(&self.candidates, document)
    }
}

} // verus!
