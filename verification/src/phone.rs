//! Phone normalization: a free-text phone number is stripped of its
//! punctuation, a country is inferred from the location text and the
//! leading digits, and the number is rendered in international form for
//! that country.

use std::fmt::Write;
use vstd::prelude::*;
use crate::text::{
    chars_of, contains, has_substring, lemma_without_chars_step, lowercase, occurs_at,
    starts_with, string_of, texts_of, to_lowercase, to_upper_ascii, trim, trimmed, upper_ascii,
    without_chars,
};

verus! {

// ---------------------------------------------------------------------------
// The country rules
// ---------------------------------------------------------------------------
/// One rule of country inference: a two-letter country code, the keywords
/// that point to the country in a location text, and the digits that the
/// phone number must then start with (empty where none are asked for).
#[derive(Debug, Clone)]
pub struct CountryGuess {
    pub country_code: String,
    pub keywords: Vec<String>,
    pub prefix: String,
}

/// The mathematical content of a `CountryGuess`.
pub struct CountryRule {
    pub code: Seq<char>,
    pub keywords: Seq<Seq<char>>,
    pub prefix: Seq<char>,
}

impl View for CountryGuess {
    type V = CountryRule;

    open spec fn view(&self) -> CountryRule {
        CountryRule {
            code: self.country_code@,
            keywords: texts_of(self.keywords@),
            prefix: self.prefix@,
        }
    }
}

/// The views of a sequence of country guesses.
pub open spec fn rules_of(guesses: Seq<CountryGuess>) -> Seq<CountryRule> {
    guesses.map_values(|g: CountryGuess| g@)
}

/// A rule from its parts.
pub open spec fn country_rule(
    code: Seq<char>,
    keywords: Seq<Seq<char>>,
    prefix: Seq<char>,
) -> CountryRule {
    CountryRule { code, keywords, prefix }
}

/// The country that is taken where no rule applies.
pub open spec fn baseline_country() -> Seq<char> {
    "us"@
}

/// The rules of country inference, in the order of their priority. Some
/// countries ask for a phone prefix and others do not; the list keeps that
/// as it was found in the data.
pub open spec fn country_rules() -> Seq<CountryRule> {
    seq![
        country_rule(
            "gb"@,
            seq!["uk"@, "london"@, "ipswich"@, "united kingdom"@, "england"@],
            "44"@,
        ),
        country_rule("cz"@, seq!["czech republic"@, "prague"@], "420"@),
        country_rule("in"@, seq!["mumbai"@, "india"@, "bangalore"@], "91"@),
        country_rule("br"@, seq!["brazil"@], ""@),
        country_rule("be"@, seq!["belgium"@], ""@),
        country_rule("ro"@, seq!["romania"@], "40"@),
        country_rule("ng"@, seq!["nigeria"@], ""@),
        country_rule("at"@, seq!["austria"@], ""@),
        country_rule("au"@, seq!["australia"@], "61"@),
        country_rule("lk"@, seq!["sri lanka"@], "94"@),
        country_rule("si"@, seq!["slovenia"@], "386"@),
        country_rule("fr"@, seq!["france"@], "33"@),
        country_rule("nl"@, seq!["netherlands"@], "31"@),
        country_rule("tw"@, seq!["taiwan"@], ""@),
        country_rule("nz"@, seq!["new zealand"@], ""@),
        country_rule("it"@, seq!["maragno"@, "italy"@], ""@),
        country_rule("ke"@, seq!["nairobi"@, "kenya"@], ""@),
        country_rule("ae"@, seq!["dubai"@], ""@),
        country_rule("pl"@, seq!["poland"@], ""@),
        country_rule("pt"@, seq!["portugal"@], ""@),
        country_rule("de"@, seq!["berlin"@, "germany"@], ""@),
        country_rule("bj"@, seq!["benin"@], "229"@),
        country_rule("il"@, seq!["israel"@], ""@),
        country_rule("es"@, seq!["spain"@], ""@),
    ]
}

/// Whether a rule applies: one of its keywords stands in the lowercase
/// location, and the digits start with its prefix where it has one.
pub open spec fn rule_applies(rule: CountryRule, location: Seq<char>, digits: Seq<char>) -> bool {
    &&& exists|k: int| 0 <= k < rule.keywords.len() && has_substring(location, rule.keywords[k])
    &&& rule.prefix.len() > 0 ==> occurs_at(digits, rule.prefix, 0)
}

/// The code of the first rule that applies, or the baseline country where
/// none does.
pub open spec fn inferred_from(
    rules: Seq<CountryRule>,
    location: Seq<char>,
    digits: Seq<char>,
) -> Seq<char>
    decreases rules.len(),
{
    if rules.len() == 0 {
        baseline_country()
    } else if rule_applies(rules[0], location, digits) {
        rules[0].code
    } else {
        inferred_from(rules.drop_first(), location, digits)
    }
}

/// The country inferred for a location text and stripped digits.
pub open spec fn inferred_country(location: Seq<char>, digits: Seq<char>) -> Seq<char> {
    inferred_from(country_rules(), lowercase(location), digits)
}

// ---------------------------------------------------------------------------
// Stripping
// ---------------------------------------------------------------------------
/// Whether `c` is one of the formatting characters that are taken out of a
/// phone number: space, hyphen, plus sign, parentheses.
pub open spec fn is_phone_punctuation(c: char) -> bool {
    c == ' ' || c == '-' || c == '+' || c == '(' || c == ')'
}

/// The raw phone number trimmed and without its formatting characters.
pub open spec fn stripped_phone(raw: Seq<char>) -> Seq<char> {
    without_chars(trimmed(raw), |c: char| is_phone_punctuation(c))
}

// ---------------------------------------------------------------------------
// The phone-number library
// ---------------------------------------------------------------------------
/// What the phone-number library makes of `digits` for the country with the
/// identifier `country_id` (two capital letters): `None` where the
/// identifier is unknown, the digits do not parse as a number, or the
/// number cannot be rendered; otherwise the number in international form
/// and whether it is valid for its country.
pub uninterp spec fn phone_reading(country_id: Seq<char>, digits: Seq<char>) -> Option<
    (Seq<char>, bool),
>;

/// The view of what `read_phone` hands back.
pub open spec fn reading_view(r: Option<(String, bool)>) -> Option<(Seq<char>, bool)> {
    match r {
        Some((text, valid)) => Some((text@, valid)),
        None => None,
    }
}

/// Parses `digits` with `phonenumber::parse` for the country named by
/// `country_id`, renders the number with `Mode::International` and asks
/// `PhoneNumber::is_valid`. The contract only names the result: it depends
/// on the identifier and the digits alone, through the metadata compiled
/// into the library.
#[verifier::external_body]
fn read_phone(country_id: &str, digits: &str) -> (r: Option<(String, bool)>)
    ensures
        reading_view(r) == phone_reading(country_id@, digits@),
{
    let id = country_id.parse::<phonenumber::country::Id>().ok()?;
    let number = phonenumber::parse(Some(id), digits).ok()?;
    let mut text = String::new();
    write!(text, "{}", number.format().mode(phonenumber::Mode::International)).ok()?;
    Some((text, number.is_valid()))
}

// ---------------------------------------------------------------------------
// The normalized phone
// ---------------------------------------------------------------------------
/// A phone number after normalization.
#[derive(Debug, Clone)]
pub struct NormalizedPhone {
    /// The number in international form, or the stripped digits where the
    /// number could not be read.
    pub phone: String,
    /// The two-letter code of the inferred country, in lowercase.
    pub country_code: String,
    /// Whether the phone-number library could read the number.
    pub was_read: bool,
    /// Whether the number was read and is valid for the inferred country.
    pub is_valid: bool,
}

/// The mathematical content of a `NormalizedPhone`.
pub struct PhoneView {
    pub phone: Seq<char>,
    pub country_code: Seq<char>,
    pub was_read: bool,
    pub is_valid: bool,
}

impl View for NormalizedPhone {
    type V = PhoneView;

    open spec fn view(&self) -> PhoneView {
        PhoneView {
            phone: self.phone@,
            country_code: self.country_code@,
            was_read: self.was_read,
            is_valid: self.is_valid,
        }
    }
}

/// The normalized phone for stripped digits, a country code and what the
/// phone-number library made of them: its rendering and verdict where it
/// read the number, the digits unchanged and not valid where it did not.
pub open spec fn phone_from_reading(
    digits: Seq<char>,
    country_code: Seq<char>,
    reading: Option<(Seq<char>, bool)>,
) -> PhoneView {
    match reading {
        Some((text, valid)) => PhoneView {
            phone: text,
            country_code,
            was_read: true,
            is_valid: valid,
        },
        None => PhoneView { phone: digits, country_code, was_read: false, is_valid: false },
    }
}

/// The normalized phone for a raw phone number and a location text.
pub open spec fn normalized_phone(raw_phone: Seq<char>, location: Seq<char>) -> PhoneView {
    let digits = stripped_phone(raw_phone);
    let code = inferred_country(location, digits);
    phone_from_reading(digits, code, phone_reading(upper_ascii(code), digits))
}

// ---------------------------------------------------------------------------
// Laws
// ---------------------------------------------------------------------------
/// The first rule that applies decides: where the rule at `i` applies and
/// none before it does, the inferred country is that of rule `i`, whatever
/// rules after it apply as well.
pub proof fn lemma_first_rule_wins(
    rules: Seq<CountryRule>,
    location: Seq<char>,
    digits: Seq<char>,
    i: int,
)
    requires
        0 <= i < rules.len(),
        rule_applies(rules[i], location, digits),
        forall|j: int| 0 <= j < i ==> !rule_applies(#[trigger] rules[j], location, digits),
    ensures
        inferred_from(rules, location, digits) == rules[i].code,
    decreases i,
{
    if i > 0 {
        let rest = rules.drop_first();
        assert(!rule_applies(rules[0], location, digits));
        assert forall|j: int| 0 <= j < i - 1 implies !rule_applies(
            #[trigger] rest[j],
            location,
            digits,
        ) by {
            assert(rest[j] == rules[j + 1]);
        }
        assert(rest[i - 1] == rules[i]);
        lemma_first_rule_wins(rest, location, digits, i - 1);
    }
}

/// Of two rules that both apply, the one that stands earlier in the list
/// is never overruled by the later one: the inferred country is that of
/// some rule no later than the earlier of the two.
pub proof fn lemma_earlier_rule_has_priority(
    rules: Seq<CountryRule>,
    location: Seq<char>,
    digits: Seq<char>,
    i: int,
    k: int,
)
    requires
        0 <= i < k < rules.len(),
        rule_applies(rules[i], location, digits),
        rule_applies(rules[k], location, digits),
    ensures
        exists|j: int|
            0 <= j <= i && rule_applies(#[trigger] rules[j], location, digits) && inferred_from(
                rules,
                location,
                digits,
            ) == rules[j].code,
    decreases i,
{
    if rule_applies(rules[0], location, digits) {
        assert(inferred_from(rules, location, digits) == rules[0].code);
    } else {
        let rest = rules.drop_first();
        assert(rest[i - 1] == rules[i]);
        assert(rest[k - 1] == rules[k]);
        lemma_earlier_rule_has_priority(rest, location, digits, i - 1, k - 1);
        let j = choose|j: int|
            0 <= j <= i - 1 && rule_applies(#[trigger] rest[j], location, digits)
                && inferred_from(rest, location, digits) == rest[j].code;
        assert(rest[j] == rules[j + 1]);
    }
}

/// Where no rule applies the baseline country is inferred.
pub proof fn lemma_no_rule_gives_baseline(
    rules: Seq<CountryRule>,
    location: Seq<char>,
    digits: Seq<char>,
)
    requires
        forall|j: int| 0 <= j < rules.len() ==> !rule_applies(#[trigger] rules[j], location, digits),
    ensures
        inferred_from(rules, location, digits) == baseline_country(),
    decreases rules.len(),
{
    if rules.len() > 0 {
        let rest = rules.drop_first();
        assert(!rule_applies(rules[0], location, digits));
        assert forall|j: int| 0 <= j < rest.len() implies !rule_applies(
            #[trigger] rest[j],
            location,
            digits,
        ) by {
            assert(rest[j] == rules[j + 1]);
        }
        lemma_no_rule_gives_baseline(rest, location, digits);
    }
}

/// Whether every rule carries a code of two letters.
pub open spec fn codes_are_two_letters(rules: Seq<CountryRule>) -> bool {
    forall|i: int| 0 <= i < rules.len() ==> (#[trigger] rules[i]).code.len() == 2
}

/// Where every rule carries a code of two letters, so does what is
/// inferred, whatever the location and the digits: a country is always
/// set.
pub proof fn lemma_inferred_code_is_set(
    rules: Seq<CountryRule>,
    location: Seq<char>,
    digits: Seq<char>,
)
    requires
        codes_are_two_letters(rules),
    ensures
        inferred_from(rules, location, digits).len() == 2,
    decreases rules.len(),
{
    reveal_strlit("us");
    if rules.len() > 0 && !rule_applies(rules[0], location, digits) {
        let rest = rules.drop_first();
        assert forall|i: int| 0 <= i < rest.len() implies (#[trigger] rest[i]).code.len() == 2 by {
            assert(rest[i] == rules[i + 1]);
        }
        lemma_inferred_code_is_set(rest, location, digits);
    }
}

/// The inferred country is always a code of two letters.
pub proof fn lemma_country_is_set(location: Seq<char>, digits: Seq<char>)
    ensures
        inferred_country(location, digits).len() == 2,
{
    reveal_strlit("gb");
    reveal_strlit("cz");
    reveal_strlit("in");
    reveal_strlit("br");
    reveal_strlit("be");
    reveal_strlit("ro");
    reveal_strlit("ng");
    reveal_strlit("at");
    reveal_strlit("au");
    reveal_strlit("lk");
    reveal_strlit("si");
    reveal_strlit("fr");
    reveal_strlit("nl");
    reveal_strlit("tw");
    reveal_strlit("nz");
    reveal_strlit("it");
    reveal_strlit("ke");
    reveal_strlit("ae");
    reveal_strlit("pl");
    reveal_strlit("pt");
    reveal_strlit("de");
    reveal_strlit("bj");
    reveal_strlit("il");
    reveal_strlit("es");
    assert(codes_are_two_letters(country_rules()));
    lemma_inferred_code_is_set(country_rules(), lowercase(location), digits);
}

/// A number that could not be read stays as its stripped digits and is
/// not valid; a number that is not valid but was read is kept as it was
/// rendered.
pub proof fn lemma_unread_number_is_kept(raw_phone: Seq<char>, location: Seq<char>)
    ensures
        !normalized_phone(raw_phone, location).was_read ==> normalized_phone(
            raw_phone,
            location,
        ).phone == stripped_phone(raw_phone) && !normalized_phone(raw_phone, location).is_valid,
{
}

/// The country code of a normalized phone is the inferred country, whether
/// or not the number could be read.
pub proof fn lemma_country_code_always_set(raw_phone: Seq<char>, location: Seq<char>)
    ensures
        normalized_phone(raw_phone, location).country_code == inferred_country(
            location,
            stripped_phone(raw_phone),
        ),
{
}

// ---------------------------------------------------------------------------
// Executable functions
// ---------------------------------------------------------------------------
/// A list of one keyword.
fn words1(a: &str) -> (r: Vec<String>)
    ensures
        texts_of(r@) == seq![a@],
{
    let mut r: Vec<String> = Vec::new();
    r.push(a.to_owned());
    assert(texts_of(r@) =~= seq![a@]);
    r
}

/// A list of two keywords.
fn words2(a: &str, b: &str) -> (r: Vec<String>)
    ensures
        texts_of(r@) == seq![a@, b@],
{
    let mut r: Vec<String> = Vec::new();
    r.push(a.to_owned());
    r.push(b.to_owned());
    assert(texts_of(r@) =~= seq![a@, b@]);
    r
}

/// A list of three keywords.
fn words3(a: &str, b: &str, c: &str) -> (r: Vec<String>)
    ensures
        texts_of(r@) == seq![a@, b@, c@],
{
    let mut r: Vec<String> = Vec::new();
    r.push(a.to_owned());
    r.push(b.to_owned());
    r.push(c.to_owned());
    assert(texts_of(r@) =~= seq![a@, b@, c@]);
    r
}

/// A list of five keywords.
fn words5(a: &str, b: &str, c: &str, d: &str, e: &str) -> (r: Vec<String>)
    ensures
        texts_of(r@) == seq![a@, b@, c@, d@, e@],
{
    let mut r: Vec<String> = Vec::new();
    r.push(a.to_owned());
    r.push(b.to_owned());
    r.push(c.to_owned());
    r.push(d.to_owned());
    r.push(e.to_owned());
    assert(texts_of(r@) =~= seq![a@, b@, c@, d@, e@]);
    r
}

/// Adds a rule at the end of a list of rules.
fn push_guess(table: &mut Vec<CountryGuess>, code: &str, keywords: Vec<String>, prefix: &str)
    ensures
        rules_of(final(table)@) == rules_of(old(table)@).push(
            country_rule(code@, texts_of(keywords@), prefix@),
        ),
{
    let guess = CountryGuess {
        country_code: code.to_owned(),
        keywords,
        prefix: prefix.to_owned(),
    };
    table.push(guess);
    assert(rules_of(table@) =~= rules_of(old(table)@).push(
        country_rule(code@, texts_of(keywords@), prefix@),
    ));
}

/// The rules of country inference, in the order of their priority.
pub fn country_guesses() -> (table: Vec<CountryGuess>)
    ensures
        rules_of(table@) == country_rules(),
{
    let mut table: Vec<CountryGuess> = Vec::new();
    assert(rules_of(table@) =~= Seq::<CountryRule>::empty());
    push_guess(
        &mut table,
        "gb",
        words5("uk", "london", "ipswich", "united kingdom", "england"),
        "44",
    );
    push_guess(&mut table, "cz", words2("czech republic", "prague"), "420");
    push_guess(&mut table, "in", words3("mumbai", "india", "bangalore"), "91");
    push_guess(&mut table, "br", words1("brazil"), "");
    push_guess(&mut table, "be", words1("belgium"), "");
    push_guess(&mut table, "ro", words1("romania"), "40");
    push_guess(&mut table, "ng", words1("nigeria"), "");
    push_guess(&mut table, "at", words1("austria"), "");
    push_guess(&mut table, "au", words1("australia"), "61");
    push_guess(&mut table, "lk", words1("sri lanka"), "94");
    push_guess(&mut table, "si", words1("slovenia"), "386");
    push_guess(&mut table, "fr", words1("france"), "33");
    push_guess(&mut table, "nl", words1("netherlands"), "31");
    push_guess(&mut table, "tw", words1("taiwan"), "");
    push_guess(&mut table, "nz", words1("new zealand"), "");
    push_guess(&mut table, "it", words2("maragno", "italy"), "");
    push_guess(&mut table, "ke", words2("nairobi", "kenya"), "");
    push_guess(&mut table, "ae", words1("dubai"), "");
    push_guess(&mut table, "pl", words1("poland"), "");
    push_guess(&mut table, "pt", words1("portugal"), "");
    push_guess(&mut table, "de", words2("berlin", "germany"), "");
    push_guess(&mut table, "bj", words1("benin"), "229");
    push_guess(&mut table, "il", words1("israel"), "");
    push_guess(&mut table, "es", words1("spain"), "");
    table
}

/// Whether `c` is a formatting character of phone numbers.
pub fn is_punctuation(c: char) -> (b: bool)
    ensures
        b == is_phone_punctuation(c),
{
    c == ' ' || c == '-' || c == '+' || c == '(' || c == ')'
}

/// Strips a raw phone number: trims it and takes out spaces, hyphens, plus
/// signs and parentheses.
pub fn strip_phone(raw_phone: &str) -> (digits: String)
    ensures
        digits@ == stripped_phone(raw_phone@),
{
    let entered = trim(&chars_of(raw_phone));
    let ghost drop = |c: char| is_phone_punctuation(c);
    let mut kept: Vec<char> = Vec::new();
    let mut i: usize = 0;
    assert(entered@.take(0) =~= Seq::<char>::empty());
    assert(without_chars(Seq::<char>::empty(), drop) =~= Seq::<char>::empty()) by {
        reveal(Seq::filter);
    }
    while i < entered.len()
        invariant
            i <= entered.len(),
            drop == |c: char| is_phone_punctuation(c),
            kept@ == without_chars(entered@.take(i as int), drop),
        decreases entered.len() - i,
    {
        proof {
            lemma_without_chars_step(entered@, drop, i as int);
        }
        let c = entered[i];
        if !is_punctuation(c) {
            kept.push(c);
        }
        i += 1;
    }
    assert(entered@.take(entered.len() as int) =~= entered@);
    string_of(&kept)
}

/// Whether a rule applies to a lowercase location and stripped digits.
pub fn guess_applies(guess: &CountryGuess, location: &Vec<char>, digits: &Vec<char>) -> (b: bool)
    ensures
        b == rule_applies(guess@, location@, digits@),
{
    let ghost rule = guess@;
    let mut found = false;
    let mut k: usize = 0;
    while k < guess.keywords.len() && !found
        invariant
            k <= guess.keywords.len(),
            rule == guess@,
            found ==> exists|j: int|
                0 <= j < rule.keywords.len() && has_substring(location@, rule.keywords[j]),
            !found ==> forall|j: int| 0 <= j < k ==> !has_substring(location@, rule.keywords[j]),
        decreases guess.keywords.len() - k,
    {
        let word = chars_of(guess.keywords[k].as_str());
        assert(rule.keywords[k as int] == guess.keywords@[k as int]@);
        if contains(location, &word) {
            found = true;
        }
        k += 1;
    }
    if !found {
        return false;
    }
    if guess.prefix.as_str().is_empty() {
        return true;
    }
    starts_with(digits, &chars_of(guess.prefix.as_str()))
}

/// The country code that a list of rules infers for a lowercase location
/// and stripped digits: that of the first rule that applies, or the
/// baseline country.
pub fn infer_from_rules(
    guesses: &Vec<CountryGuess>,
    location: &Vec<char>,
    digits: &Vec<char>,
) -> (code: String)
    ensures
        code@ == inferred_from(rules_of(guesses@), location@, digits@),
{
    let ghost rules = rules_of(guesses@);
    let mut i: usize = 0;
    assert(rules.skip(0) =~= rules);
    while i < guesses.len()
        invariant
            i <= guesses.len(),
            rules == rules_of(guesses@),
            inferred_from(rules, location@, digits@) == inferred_from(
                rules.skip(i as int),
                location@,
                digits@,
            ),
        decreases guesses.len() - i,
    {
        let ghost rest = rules.skip(i as int);
        assert(rest[0] == guesses@[i as int]@);
        assert(rest.drop_first() =~= rules.skip(i + 1));
        if guess_applies(&guesses[i], location, digits) {
            return guesses[i].country_code.clone();
        }
        i += 1;
    }
    "us".to_owned()
}

/// Infers the country for a location text and stripped digits.
pub fn infer_country(location: &str, digits: &str) -> (code: String)
    ensures
        code@ == inferred_country(location@, digits@),
{
    let lower = to_lowercase(&chars_of(location));
    infer_from_rules(&country_guesses(), &lower, &chars_of(digits))
}

/// The normalized phone for stripped digits, a country code and what the
/// phone-number library made of them.
pub fn phone_from(digits: String, country_code: String, reading: Option<(String, bool)>) -> (r:
    NormalizedPhone)
    ensures
        r@ == phone_from_reading(digits@, country_code@, reading_view(reading)),
{
    match reading {
        Some((text, valid)) => NormalizedPhone {
            phone: text,
            country_code,
            was_read: true,
            is_valid: valid,
        },
        None => NormalizedPhone { phone: digits, country_code, was_read: false, is_valid: false },
    }
}

/// Normalizes a raw phone number against the country inferred from a
/// location text.
pub fn normalize_phone(raw_phone: &str, location: &str) -> (r: NormalizedPhone)
    ensures
        r@ == normalized_phone(raw_phone@, location@),
        r@.country_code == inferred_country(location@, stripped_phone(raw_phone@)),
        r@.country_code.len() == 2,
        !r@.was_read ==> r@.phone == stripped_phone(raw_phone@) && !r@.is_valid,
{
    proof {
        lemma_country_is_set(location@, stripped_phone(raw_phone@));
    }
    let digits = strip_phone(raw_phone);
    let code = infer_country(location, digits.as_str());
    let id = string_of(&to_upper_ascii(&chars_of(code.as_str())));
    let reading = read_phone(id.as_str(), digits.as_str());
    phone_from(digits, code, reading)
}

} // verus!
