//! Character-level text operations with exact contracts over `Seq<char>`.
//!
//! Every operation here has a mathematical definition on sequences of
//! characters and an executable counterpart proved against it. The executable
//! functions work on `Vec<char>`; `chars_of` and `string_of` convert at the
//! edges.

use vstd::prelude::*;

verus! {

// ---------------------------------------------------------------------------
// Definitions
// ---------------------------------------------------------------------------
/// Whether `c` has the Unicode property `White_Space`.
pub open spec fn is_white_space(c: char) -> bool {
    let n = c as u32;
    ||| 0x09 <= n <= 0x0d
    ||| n == 0x20
    ||| n == 0x85
    ||| n == 0xa0
    ||| n == 0x1680
    ||| 0x2000 <= n <= 0x200a
    ||| n == 0x2028
    ||| n == 0x2029
    ||| n == 0x202f
    ||| n == 0x205f
    ||| n == 0x3000
}

/// `s` without its leading white space.
pub open spec fn trim_start(s: Seq<char>) -> Seq<char>
    decreases s.len(),
{
    if s.len() > 0 && is_white_space(s[0]) {
        trim_start(s.drop_first())
    } else {
        s
    }
}

/// `s` without its trailing white space.
pub open spec fn trim_end(s: Seq<char>) -> Seq<char>
    decreases s.len(),
{
    if s.len() > 0 && is_white_space(s.last()) {
        trim_end(s.drop_last())
    } else {
        s
    }
}

/// `s` without its leading and trailing white space.
pub open spec fn trimmed(s: Seq<char>) -> Seq<char> {
    trim_end(trim_start(s))
}

/// Whether `s` neither starts nor ends with white space.
pub open spec fn is_trimmed(s: Seq<char>) -> bool {
    s.len() > 0 ==> !is_white_space(s[0]) && !is_white_space(s.last())
}

/// Whether `pat` stands in `s` at position `i`.
pub open spec fn occurs_at(s: Seq<char>, pat: Seq<char>, i: int) -> bool {
    &&& 0 <= i
    &&& i + pat.len() <= s.len()
    &&& s.subrange(i, i + pat.len()) == pat
}

/// Whether `pat` stands somewhere in `s`.
pub open spec fn has_substring(s: Seq<char>, pat: Seq<char>) -> bool {
    exists|i: int| occurs_at(s, pat, i)
}

/// `s` without the copies of `pat` it starts with. An empty `pat` removes
/// nothing.
pub open spec fn strip_leading(s: Seq<char>, pat: Seq<char>) -> Seq<char>
    decreases s.len(),
{
    if pat.len() > 0 && occurs_at(s, pat, 0) {
        strip_leading(s.skip(pat.len() as int), pat)
    } else {
        s
    }
}

/// `s` without the run of `c` it starts with.
pub open spec fn strip_leading_char(s: Seq<char>, c: char) -> Seq<char>
    decreases s.len(),
{
    if s.len() > 0 && s[0] == c {
        strip_leading_char(s.drop_first(), c)
    } else {
        s
    }
}

/// `s` without the run of `c` it ends with.
pub open spec fn strip_trailing_char(s: Seq<char>, c: char) -> Seq<char>
    decreases s.len(),
{
    if s.len() > 0 && s.last() == c {
        strip_trailing_char(s.drop_last(), c)
    } else {
        s
    }
}

/// `s` without one leading `c`, if it starts with one.
pub open spec fn strip_one_leading_char(s: Seq<char>, c: char) -> Seq<char> {
    if s.len() > 0 && s[0] == c {
        s.drop_first()
    } else {
        s
    }
}

/// `s` with the copies of `pat` taken out, found from left to right without
/// overlap. An empty `pat` removes nothing.
pub open spec fn remove_all(s: Seq<char>, pat: Seq<char>) -> Seq<char>
    decreases s.len(),
{
    if pat.len() == 0 || s.len() == 0 {
        s
    } else if occurs_at(s, pat, 0) {
        remove_all(s.skip(pat.len() as int), pat)
    } else {
        seq![s[0]] + remove_all(s.drop_first(), pat)
    }
}

/// `s` with every character matching `drop` taken out.
pub open spec fn without_chars(s: Seq<char>, drop: spec_fn(char) -> bool) -> Seq<char> {
    s.filter(|c: char| !drop(c))
}

/// The views of a sequence of strings.
pub open spec fn texts_of(words: Seq<String>) -> Seq<Seq<char>> {
    words.map_values(|w: String| w@)
}

/// The view of an optional string.
pub open spec fn option_text(o: Option<String>) -> Option<Seq<char>> {
    match o {
        Some(s) => Some(s@),
        None => None,
    }
}

/// The lowercase form of a text, as `str::to_lowercase` computes it.
pub uninterp spec fn lowercase(s: Seq<char>) -> Seq<char>;

// ---------------------------------------------------------------------------
// Lemmas
// ---------------------------------------------------------------------------
/// Leading white space can be skipped before trimming the start.
pub proof fn lemma_trim_start_skip(s: Seq<char>, k: int)
    requires
        0 <= k <= s.len(),
        forall|j: int| 0 <= j < k ==> is_white_space(#[trigger] s[j]),
    ensures
        trim_start(s) == trim_start(s.skip(k)),
    decreases k,
{
    if k == 0 {
        assert(s.skip(0) =~= s);
    } else {
        assert(is_white_space(s[0]));
        let t = s.drop_first();
        assert forall|j: int| 0 <= j < k - 1 implies is_white_space(#[trigger] t[j]) by {
            assert(t[j] == s[j + 1]);
        }
        lemma_trim_start_skip(t, k - 1);
        assert(t.skip(k - 1) =~= s.skip(k));
    }
}

/// Trailing white space can be cut off before trimming the end.
pub proof fn lemma_trim_end_take(s: Seq<char>, k: int)
    requires
        0 <= k <= s.len(),
        forall|j: int| k <= j < s.len() ==> is_white_space(#[trigger] s[j]),
    ensures
        trim_end(s) == trim_end(s.take(k)),
    decreases s.len() - k,
{
    if k == s.len() {
        assert(s.take(k) =~= s);
    } else {
        assert(is_white_space(s[s.len() - 1]));
        let t = s.drop_last();
        assert forall|j: int| k <= j < t.len() implies is_white_space(#[trigger] t[j]) by {
            assert(t[j] == s[j]);
        }
        lemma_trim_end_take(t, k);
        assert(t.take(k) =~= s.take(k));
    }
}

/// What trimming the start leaves is a suffix of the text that does not
/// start with white space, and what it takes away is white space.
pub proof fn lemma_trim_start_shape(s: Seq<char>)
    ensures
        trim_start(s).len() <= s.len(),
        trim_start(s) == s.skip(s.len() - trim_start(s).len()),
        trim_start(s).len() > 0 ==> !is_white_space(trim_start(s)[0]),
        forall|j: int| 0 <= j < s.len() - trim_start(s).len() ==> is_white_space(#[trigger] s[j]),
    decreases s.len(),
{
    if s.len() > 0 && is_white_space(s[0]) {
        let t = s.drop_first();
        lemma_trim_start_shape(t);
        let r = trim_start(t);
        assert(t.skip(t.len() - r.len()) =~= s.skip(s.len() - r.len()));
        assert forall|j: int| 0 <= j < s.len() - r.len() implies is_white_space(
            #[trigger] s[j],
        ) by {
            if j > 0 {
                assert(t[j - 1] == s[j]);
            }
        }
    } else {
        assert(s.skip(0) =~= s);
    }
}

/// What trimming the end leaves is a prefix of the text that does not end
/// with white space, and what it takes away is white space.
pub proof fn lemma_trim_end_shape(s: Seq<char>)
    ensures
        trim_end(s).len() <= s.len(),
        trim_end(s) == s.take(trim_end(s).len() as int),
        trim_end(s).len() > 0 ==> !is_white_space(trim_end(s).last()),
        s.len() > 0 && !is_white_space(s[0]) ==> trim_end(s).len() > 0,
        forall|j: int| trim_end(s).len() <= j < s.len() ==> is_white_space(#[trigger] s[j]),
    decreases s.len(),
{
    if s.len() > 0 && is_white_space(s.last()) {
        let t = s.drop_last();
        lemma_trim_end_shape(t);
        let r = trim_end(t);
        assert(t.take(r.len() as int) =~= s.take(r.len() as int));
        if !is_white_space(s[0]) {
            assert(t.len() > 0);
            assert(t[0] == s[0]);
        }
        assert forall|j: int| r.len() <= j < s.len() implies is_white_space(#[trigger] s[j]) by {
            if j < t.len() {
                assert(t[j] == s[j]);
            }
        }
    } else {
        assert(s.take(s.len() as int) =~= s);
    }
}

/// A trimmed text neither starts nor ends with white space.
pub proof fn lemma_trimmed_is_trimmed(s: Seq<char>)
    ensures
        is_trimmed(trimmed(s)),
{
    let a = trim_start(s);
    lemma_trim_start_shape(s);
    lemma_trim_end_shape(a);
    let r = trim_end(a);
    if r.len() > 0 {
        assert(r[0] == a[0]);
    }
}

/// Trimming a text that is already trimmed changes nothing.
pub proof fn lemma_trimmed_fixed(s: Seq<char>)
    requires
        is_trimmed(s),
    ensures
        trimmed(s) == s,
{
}

/// Trimming takes a piece out of the middle of the text.
pub proof fn lemma_trimmed_is_subrange(s: Seq<char>) -> (r: (int, int))
    ensures
        0 <= r.0 <= r.1 <= s.len(),
        trimmed(s) == s.subrange(r.0, r.1),
{
    let a = trim_start(s);
    lemma_trim_start_shape(s);
    lemma_trim_end_shape(a);
    let from = s.len() - a.len();
    let to = from + trim_end(a).len();
    assert(s.skip(from).take(trim_end(a).len() as int) =~= s.subrange(from, to));
    (from, to)
}

/// A piece of a text holds no substring that the text does not hold.
pub proof fn lemma_subrange_has_substring(s: Seq<char>, from: int, to: int, pat: Seq<char>)
    requires
        0 <= from <= to <= s.len(),
        has_substring(s.subrange(from, to), pat),
    ensures
        has_substring(s, pat),
{
    let t = s.subrange(from, to);
    let i = choose|i: int| occurs_at(t, pat, i);
    assert(t.subrange(i, i + pat.len()) =~= s.subrange(from + i, from + i + pat.len()));
    assert(occurs_at(s, pat, from + i));
}

/// Skipping a whole number of leading copies of `pat` does not change what
/// stripping them leaves.
pub proof fn lemma_strip_leading_skip(s: Seq<char>, pat: Seq<char>, k: int)
    requires
        pat.len() > 0,
        0 <= k,
        k + pat.len() <= s.len(),
        occurs_at(s, pat, k),
        strip_leading(s, pat) == strip_leading(s.skip(k), pat),
    ensures
        strip_leading(s, pat) == strip_leading(s.skip(k + pat.len()), pat),
{
    let t = s.skip(k);
    assert(t.subrange(0, pat.len() as int) =~= s.subrange(k, k + pat.len()));
    assert(occurs_at(t, pat, 0));
    assert(t.skip(pat.len() as int) =~= s.skip(k + pat.len()));
}

/// A leading run of `c` can be skipped before stripping it.
pub proof fn lemma_strip_leading_char_skip(s: Seq<char>, c: char, k: int)
    requires
        0 <= k <= s.len(),
        forall|j: int| 0 <= j < k ==> #[trigger] s[j] == c,
    ensures
        strip_leading_char(s, c) == strip_leading_char(s.skip(k), c),
    decreases k,
{
    if k == 0 {
        assert(s.skip(0) =~= s);
    } else {
        assert(s[0] == c);
        let t = s.drop_first();
        assert forall|j: int| 0 <= j < k - 1 implies #[trigger] t[j] == c by {
            assert(t[j] == s[j + 1]);
        }
        lemma_strip_leading_char_skip(t, c, k - 1);
        assert(t.skip(k - 1) =~= s.skip(k));
    }
}

/// A trailing run of `c` can be cut off before stripping it.
pub proof fn lemma_strip_trailing_char_take(s: Seq<char>, c: char, k: int)
    requires
        0 <= k <= s.len(),
        forall|j: int| k <= j < s.len() ==> #[trigger] s[j] == c,
    ensures
        strip_trailing_char(s, c) == strip_trailing_char(s.take(k), c),
    decreases s.len() - k,
{
    if k == s.len() {
        assert(s.take(k) =~= s);
    } else {
        assert(s[s.len() - 1] == c);
        let t = s.drop_last();
        assert forall|j: int| k <= j < t.len() implies #[trigger] t[j] == c by {
            assert(t[j] == s[j]);
        }
        lemma_strip_trailing_char_take(t, c, k);
        assert(t.take(k) =~= s.take(k));
    }
}

/// Removing the copies of `pat` from a suffix, one step unfolded at the
/// position `i` of the whole text.
pub proof fn lemma_remove_all_step(s: Seq<char>, pat: Seq<char>, i: int)
    requires
        pat.len() > 0,
        0 <= i < s.len(),
    ensures
        occurs_at(s, pat, i) ==> remove_all(s.skip(i), pat) == remove_all(
            s.skip(i + pat.len()),
            pat,
        ),
        !occurs_at(s, pat, i) ==> remove_all(s.skip(i), pat) == seq![s[i]] + remove_all(
            s.skip(i + 1),
            pat,
        ),
{
    let t = s.skip(i);
    assert(t.len() > 0);
    assert(t[0] == s[i]);
    assert(t.drop_first() =~= s.skip(i + 1));
    if i + pat.len() <= s.len() {
        assert(t.subrange(0, pat.len() as int) =~= s.subrange(i, i + pat.len()));
        assert(t.skip(pat.len() as int) =~= s.skip(i + pat.len()));
    }
}

/// Taking the copies of `pat` out never lengthens a text, shortens every
/// text that holds `pat`, and leaves every other text as it is.
pub proof fn lemma_remove_all_shrinks(s: Seq<char>, pat: Seq<char>)
    requires
        pat.len() > 0,
    ensures
        remove_all(s, pat).len() <= s.len(),
        has_substring(s, pat) ==> remove_all(s, pat).len() < s.len(),
        !has_substring(s, pat) ==> remove_all(s, pat) == s,
    decreases s.len(),
{
    if s.len() == 0 {
        assert forall|i: int| !occurs_at(s, pat, i) by {}
    } else if occurs_at(s, pat, 0) {
        lemma_remove_all_shrinks(s.skip(pat.len() as int), pat);
    } else {
        let t = s.drop_first();
        lemma_remove_all_shrinks(t, pat);
        if has_substring(s, pat) {
            let i = choose|i: int| occurs_at(s, pat, i);
            assert(t.subrange(i - 1, i - 1 + pat.len()) =~= s.subrange(i, i + pat.len()));
            assert(occurs_at(t, pat, i - 1));
        } else {
            if has_substring(t, pat) {
                let j = choose|j: int| occurs_at(t, pat, j);
                assert(s.subrange(j + 1, j + 1 + pat.len()) =~= t.subrange(j, j + pat.len()));
                assert(occurs_at(s, pat, j + 1));
            }
            assert(seq![s[0]] + t =~= s);
        }
    }
}

/// Filtering a text one character further.
pub proof fn lemma_without_chars_step(s: Seq<char>, drop: spec_fn(char) -> bool, i: int)
    requires
        0 <= i < s.len(),
    ensures
        without_chars(s.take(i + 1), drop) == if drop(s[i]) {
            without_chars(s.take(i), drop)
        } else {
            without_chars(s.take(i), drop).push(s[i])
        },
{
    let keep = |c: char| !drop(c);
    let t = s.take(i + 1);
    assert(t.drop_last() =~= s.take(i));
    assert(t.last() == s[i]);
    reveal(Seq::filter);
}

// ---------------------------------------------------------------------------
// Executable functions
// ---------------------------------------------------------------------------
/// Appends one character to a string. Wraps `String::push`, which adds the
/// character at the end and leaves the rest as it was.
#[verifier::external_body]
fn push_char(s: &mut String, c: char)
    ensures
        final(s)@ == old(s)@.push(c),
{
    s.push(c)
}

/// The lowercase form of `s`. Wraps `str::to_lowercase`; the contract only
/// names its result.
#[verifier::external_body]
fn std_to_lowercase(s: &str) -> (r: String)
    ensures
        r@ == lowercase(s@),
{
    s.to_lowercase()
}

/// The lowercase form of `s`.
pub fn to_lowercase(s: &Vec<char>) -> (r: Vec<char>)
    ensures
        r@ == lowercase(s@),
{
    let text = string_of(s);
    let lower = std_to_lowercase(text.as_str());
    chars_of(lower.as_str())
}

/// The characters of a string, in order.
pub fn chars_of(s: &str) -> (v: Vec<char>)
    ensures
        v@ == s@,
{
    let mut v: Vec<char> = Vec::new();
    for c in it: s.chars()
        invariant
            it.seq() == s@,
            v@ == s@.subrange(0, it.index() as int),
    {
        v.push(c);
    }
    v
}

/// The string made of the given characters, in order.
pub fn string_of(v: &Vec<char>) -> (s: String)
    ensures
        s@ == v@,
{
    let mut s = String::new();
    let mut i: usize = 0;
    while i < v.len()
        invariant
            i <= v.len(),
            s@ == v@.subrange(0, i as int),
        decreases v.len() - i,
    {
        push_char(&mut s, v[i]);
        i += 1;
    }
    s
}

/// Whether `c` is white space.
pub fn is_space(c: char) -> (b: bool)
    ensures
        b == is_white_space(c),
{
    let n: u32 = c as u32;
    (0x09 <= n && n <= 0x0d) || n == 0x20 || n == 0x85 || n == 0xa0 || n == 0x1680 || (0x2000 <= n
        && n <= 0x200a) || n == 0x2028 || n == 0x2029 || n == 0x202f || n == 0x205f || n == 0x3000
}

/// The characters of `v` from `from` up to `to`.
pub fn slice_of(v: &Vec<char>, from: usize, to: usize) -> (r: Vec<char>)
    requires
        from <= to <= v.len(),
    ensures
        r@ == v@.subrange(from as int, to as int),
{
    let mut r: Vec<char> = Vec::new();
    let mut i: usize = from;
    while i < to
        invariant
            from <= i <= to <= v.len(),
            r@ == v@.subrange(from as int, i as int),
        decreases to - i,
    {
        r.push(v[i]);
        i += 1;
    }
    r
}

/// `a` followed by `b`.
pub fn join(a: &Vec<char>, b: &Vec<char>) -> (r: Vec<char>)
    ensures
        r@ == a@ + b@,
{
    let mut r: Vec<char> = slice_of(a, 0, a.len());
    assert(a@.subrange(0, a@.len() as int) =~= a@);
    let mut i: usize = 0;
    while i < b.len()
        invariant
            i <= b.len(),
            r@ == a@ + b@.subrange(0, i as int),
        decreases b.len() - i,
    {
        r.push(b[i]);
        i += 1;
    }
    assert(b@.subrange(0, b@.len() as int) =~= b@);
    r
}

/// Whether two texts are the same.
pub fn same_text(a: &Vec<char>, b: &Vec<char>) -> (r: bool)
    ensures
        r == (a@ == b@),
{
    if a.len() != b.len() {
        return false;
    }
    let mut i: usize = 0;
    while i < a.len()
        invariant
            i <= a.len(),
            a.len() == b.len(),
            forall|j: int| 0 <= j < i ==> a@[j] == b@[j],
        decreases a.len() - i,
    {
        if a[i] != b[i] {
            return false;
        }
        i += 1;
    }
    assert(a@ =~= b@);
    true
}

/// `v` without its leading and trailing white space.
pub fn trim(v: &Vec<char>) -> (r: Vec<char>)
    ensures
        r@ == trimmed(v@),
{
    let n: usize = v.len();
    let mut i: usize = 0;
    while i < n && is_space(v[i])
        invariant
            n == v.len(),
            i <= n,
            forall|j: int| 0 <= j < i ==> is_white_space(#[trigger] v@[j]),
        decreases n - i,
    {
        i += 1;
    }
    let mut j: usize = n;
    while j > i && is_space(v[j - 1])
        invariant
            n == v.len(),
            i <= j <= n,
            forall|k: int| j <= k < n ==> is_white_space(#[trigger] v@[k]),
        decreases j,
    {
        j -= 1;
    }
    proof {
        let a = v@.skip(i as int);
        lemma_trim_start_skip(v@, i as int);
        assert(trim_start(a) == a);
        assert forall|k: int| j - i <= k < a.len() implies is_white_space(#[trigger] a[k]) by {
            assert(a[k] == v@[k + i]);
        }
        lemma_trim_end_take(a, j - i);
        let b = a.take(j - i);
        assert(b =~= v@.subrange(i as int, j as int));
        if j > i {
            assert(b.last() == v@[j - 1]);
        }
        assert(trim_end(b) == b);
    }
    slice_of(v, i, j)
}

/// Whether `pat` stands in `s` at position `i`.
pub fn matches_at(s: &Vec<char>, pat: &Vec<char>, i: usize) -> (r: bool)
    ensures
        r == occurs_at(s@, pat@, i as int),
{
    let m: usize = pat.len();
    if i > s.len() || m > s.len() - i {
        return false;
    }
    let mut k: usize = 0;
    while k < m
        invariant
            m == pat.len(),
            i + m <= s.len(),
            k <= m,
            forall|j: int| 0 <= j < k ==> s@[i + j] == pat@[j],
        decreases m - k,
    {
        if s[i + k] != pat[k] {
            proof {
                let w = s@.subrange(i as int, i + m);
                assert(w[k as int] == s@[i + k]);
            }
            return false;
        }
        k += 1;
    }
    assert(s@.subrange(i as int, i + m) =~= pat@);
    true
}

/// Whether `s` starts with `pat`.
pub fn starts_with(s: &Vec<char>, pat: &Vec<char>) -> (r: bool)
    ensures
        r == occurs_at(s@, pat@, 0),
{
    matches_at(s, pat, 0)
}

/// Whether `pat` stands somewhere in `s`.
pub fn contains(s: &Vec<char>, pat: &Vec<char>) -> (r: bool)
    ensures
        r == has_substring(s@, pat@),
{
    let n: usize = s.len();
    if pat.len() > n {
        return false;
    }
    let last: usize = n - pat.len();
    let mut i: usize = 0;
    loop
        invariant
            n == s.len(),
            last == n - pat.len(),
            i <= last,
            forall|j: int| 0 <= j < i ==> !occurs_at(s@, pat@, j),
        decreases last - i,
    {
        if matches_at(s, pat, i) {
            return true;
        }
        if i == last {
            return false;
        }
        i += 1;
    }
}

/// `s` without the copies of `pat` it starts with.
pub fn strip_prefix_repeated(s: &Vec<char>, pat: &Vec<char>) -> (r: Vec<char>)
    ensures
        r@ == strip_leading(s@, pat@),
{
    let m: usize = pat.len();
    let n: usize = s.len();
    let mut k: usize = 0;
    if m > 0 {
        assert(s@.skip(0) =~= s@);
        while matches_at(s, pat, k)
            invariant
                m == pat.len(),
                n == s.len(),
                m > 0,
                k <= n,
                strip_leading(s@, pat@) == strip_leading(s@.skip(k as int), pat@),
            decreases n - k,
        {
            proof {
                lemma_strip_leading_skip(s@, pat@, k as int);
            }
            k += m;
        }
        proof {
            let t = s@.skip(k as int);
            if occurs_at(t, pat@, 0) {
                assert(t.subrange(0, m as int) =~= s@.subrange(k as int, k + m));
            }
        }
    }
    assert(s@.skip(k as int) =~= s@.subrange(k as int, n as int));
    slice_of(s, k, n)
}

/// `s` without the run of `c` it starts with.
pub fn strip_char_start(s: &Vec<char>, c: char) -> (r: Vec<char>)
    ensures
        r@ == strip_leading_char(s@, c),
{
    let n: usize = s.len();
    let mut i: usize = 0;
    while i < n && s[i] == c
        invariant
            n == s.len(),
            i <= n,
            forall|j: int| 0 <= j < i ==> #[trigger] s@[j] == c,
        decreases n - i,
    {
        i += 1;
    }
    proof {
        lemma_strip_leading_char_skip(s@, c, i as int);
        assert(s@.skip(i as int) =~= s@.subrange(i as int, n as int));
    }
    slice_of(s, i, n)
}

/// `s` without the run of `c` it ends with.
pub fn strip_char_end(s: &Vec<char>, c: char) -> (r: Vec<char>)
    ensures
        r@ == strip_trailing_char(s@, c),
{
    let n: usize = s.len();
    let mut j: usize = n;
    while j > 0 && s[j - 1] == c
        invariant
            n == s.len(),
            j <= n,
            forall|k: int| j <= k < n ==> #[trigger] s@[k] == c,
        decreases j,
    {
        j -= 1;
    }
    proof {
        lemma_strip_trailing_char_take(s@, c, j as int);
        let b = s@.take(j as int);
        assert(b =~= s@.subrange(0, j as int));
        if j > 0 {
            assert(b.last() == s@[j - 1]);
        }
    }
    slice_of(s, 0, j)
}

/// `s` without one leading `c`, if it starts with one.
pub fn strip_one_char_start(s: &Vec<char>, c: char) -> (r: Vec<char>)
    ensures
        r@ == strip_one_leading_char(s@, c),
{
    let n: usize = s.len();
    if n > 0 && s[0] == c {
        slice_of(s, 1, n)
    } else {
        assert(s@.subrange(0, n as int) =~= s@);
        slice_of(s, 0, n)
    }
}

/// `s` with the copies of `pat` taken out, found from left to right without
/// overlap.
pub fn remove_occurrences(s: &Vec<char>, pat: &Vec<char>) -> (r: Vec<char>)
    ensures
        r@ == remove_all(s@, pat@),
{
    let n: usize = s.len();
    let m: usize = pat.len();
    if m == 0 {
        assert(s@.subrange(0, n as int) =~= s@);
        return slice_of(s, 0, n);
    }
    let mut out: Vec<char> = Vec::new();
    let mut i: usize = 0;
    assert(s@.skip(0) =~= s@);
    while i < n
        invariant
            n == s.len(),
            m == pat.len(),
            m > 0,
            i <= n,
            remove_all(s@, pat@) == out@ + remove_all(s@.skip(i as int), pat@),
        decreases n - i,
    {
        proof {
            lemma_remove_all_step(s@, pat@, i as int);
        }
        if matches_at(s, pat, i) {
            i += m;
        } else {
            let ghost before = out@;
            out.push(s[i]);
            assert(out@ + remove_all(s@.skip(i + 1), pat@) =~= before + (seq![s@[i as int]]
                + remove_all(s@.skip(i + 1), pat@)));
            i += 1;
        }
    }
    assert(out@ + remove_all(s@.skip(n as int), pat@) =~= out@);
    out
}


/// The capital of an ASCII lowercase letter; any other character unchanged.
pub open spec fn upper_ascii_char(c: char) -> char {
    if 'a' <= c <= 'z' {
        ((c as u8) - 32) as u8 as char
    } else {
        c
    }
}

/// `s` with its ASCII lowercase letters capitalised.
pub open spec fn upper_ascii(s: Seq<char>) -> Seq<char> {
    s.map_values(|c: char| upper_ascii_char(c))
}

/// The capital of an ASCII lowercase letter; any other character unchanged.
pub fn to_upper_ascii_char(c: char) -> (r: char)
    ensures
        r == upper_ascii_char(c),
{
    if 'a' <= c && c <= 'z' {
        let n: u8 = c as u8;
        let m: u8 = n - 32;
        m as char
    } else {
        c
    }
}

/// `s` with its ASCII lowercase letters capitalised.
pub fn to_upper_ascii(s: &Vec<char>) -> (r: Vec<char>)
    ensures
        r@ == upper_ascii(s@),
{
    let mut r: Vec<char> = Vec::new();
    let mut i: usize = 0;
    while i < s.len()
        invariant
            i <= s.len(),
            r@ == upper_ascii(s@.subrange(0, i as int)),
        decreases s.len() - i,
    {
        r.push(to_upper_ascii_char(s[i]));
        assert(r@ =~= upper_ascii(s@.subrange(0, i + 1)));
        i += 1;
    }
    assert(s@.subrange(0, s.len() as int) =~= s@);
    r
}

// ---------------------------------------------------------------------------
// Finding and splitting
// ---------------------------------------------------------------------------
/// The position of the first `c` in `s`, or the length of `s` where there
/// is none.
pub open spec fn first_index(s: Seq<char>, c: char) -> int
    decreases s.len(),
{
    if s.len() == 0 || s[0] == c {
        0
    } else {
        1 + first_index(s.drop_first(), c)
    }
}

/// The pieces of `s` between the copies of `sep`, found from left to right
/// without overlap, where `current` is what has been read of the first
/// piece so far.
pub open spec fn split_after(s: Seq<char>, sep: Seq<char>, current: Seq<char>) -> Seq<Seq<char>>
    decreases s.len(),
{
    if s.len() == 0 {
        seq![current]
    } else if sep.len() > 0 && occurs_at(s, sep, 0) {
        seq![current] + split_after(s.skip(sep.len() as int), sep, Seq::empty())
    } else {
        split_after(s.drop_first(), sep, current.push(s[0]))
    }
}

/// The pieces of `s` between the copies of `sep`: one piece more than
/// there are copies, so one piece, the whole of `s`, where there is none.
pub open spec fn split_on(s: Seq<char>, sep: Seq<char>) -> Seq<Seq<char>> {
    split_after(s, sep, Seq::empty())
}

/// Where no character before `k` is `c`, the first `c` is found by looking
/// from `k` on.
pub proof fn lemma_first_index_skip(s: Seq<char>, c: char, k: int)
    requires
        0 <= k <= s.len(),
        forall|j: int| 0 <= j < k ==> #[trigger] s[j] != c,
    ensures
        first_index(s, c) == k + first_index(s.skip(k), c),
    decreases k,
{
    if k == 0 {
        assert(s.skip(0) =~= s);
    } else {
        let t = s.drop_first();
        assert(s[0] != c);
        assert forall|j: int| 0 <= j < k - 1 implies #[trigger] t[j] != c by {
            assert(t[j] == s[j + 1]);
        }
        lemma_first_index_skip(t, c, k - 1);
        assert(t.skip(k - 1) =~= s.skip(k));
    }
}

/// The position of the first `c` in `s`, or the length of `s` where there
/// is none.
pub fn find_char(s: &Vec<char>, c: char) -> (i: usize)
    ensures
        i == first_index(s@, c),
        i <= s.len(),
{
    let mut i: usize = 0;
    while i < s.len() && s[i] != c
        invariant
            i <= s.len(),
            forall|j: int| 0 <= j < i ==> #[trigger] s@[j] != c,
        decreases s.len() - i,
    {
        i += 1;
    }
    proof {
        lemma_first_index_skip(s@, c, i as int);
        let t = s@.skip(i as int);
        if i < s.len() {
            assert(t[0] == s@[i as int]);
        }
    }
    i
}

/// The pieces of `s` between the copies of `sep`.
pub fn split(s: &Vec<char>, sep: &Vec<char>) -> (pieces: Vec<Vec<char>>)
    ensures
        pieces@.map_values(|p: Vec<char>| p@) == split_on(s@, sep@),
{
    let n: usize = s.len();
    let m: usize = sep.len();
    let mut pieces: Vec<Vec<char>> = Vec::new();
    let mut current: Vec<char> = Vec::new();
    let mut i: usize = 0;
    assert(s@.skip(0) =~= s@);
    assert(pieces@.map_values(|p: Vec<char>| p@) =~= Seq::<Seq<char>>::empty());
    while i < n
        invariant
            n == s.len(),
            m == sep.len(),
            i <= n,
            split_on(s@, sep@) == pieces@.map_values(|p: Vec<char>| p@) + split_after(
                s@.skip(i as int),
                sep@,
                current@,
            ),
        decreases n - i,
    {
        let ghost rest = s@.skip(i as int);
        let ghost done = pieces@.map_values(|p: Vec<char>| p@);
        assert(rest[0] == s@[i as int]);
        assert(rest.drop_first() =~= s@.skip(i + 1));
        if m > 0 && matches_at(s, sep, i) {
            proof {
                assert(rest.subrange(0, m as int) =~= s@.subrange(i as int, i + m));
                assert(rest.skip(m as int) =~= s@.skip(i + m));
            }
            let ghost piece = current@;
            pieces.push(current);
            current = Vec::new();
            assert(pieces@.map_values(|p: Vec<char>| p@) + split_after(
                s@.skip(i + m),
                sep@,
                current@,
            ) =~= done + (seq![piece] + split_after(
                s@.skip(i + m),
                sep@,
                Seq::empty(),
            )));
            i += m;
        } else {
            proof {
                if m > 0 && i + m <= n {
                    assert(rest.subrange(0, m as int) =~= s@.subrange(i as int, i + m));
                }
            }
            current.push(s[i]);
            i += 1;
        }
    }
    let ghost done = pieces@.map_values(|p: Vec<char>| p@);
    pieces.push(current);
    assert(pieces@.map_values(|p: Vec<char>| p@) =~= done + seq![current@]);
    pieces
}

// ---------------------------------------------------------------------------
// Numbers in decimal
// ---------------------------------------------------------------------------
/// The character of a decimal digit.
pub open spec fn digit_char(d: int) -> char {
    (('0' as u8) + d) as u8 as char
}

/// The decimal digits of a natural number, without leading zeros.
pub open spec fn decimal_digits(n: nat) -> Seq<char>
    decreases n,
{
    if n < 10 {
        seq![digit_char(n as int)]
    } else {
        decimal_digits(n / 10).push(digit_char((n % 10) as int))
    }
}

/// A whole number in decimal, with a minus sign where it is negative.
pub open spec fn decimal(n: int) -> Seq<char> {
    if n < 0 {
        seq!['-'] + decimal_digits((-n) as nat)
    } else {
        decimal_digits(n as nat)
    }
}

/// `s` with zeros in front until it is `width` characters long.
pub open spec fn zero_padded(s: Seq<char>, width: nat) -> Seq<char>
    decreases width - s.len(),
{
    if s.len() >= width {
        s
    } else {
        zero_padded(seq!['0'] + s, width)
    }
}

/// The character of a decimal digit.
pub fn digit(d: u32) -> (c: char)
    requires
        d < 10,
    ensures
        c == digit_char(d as int),
{
    let zero: u8 = '0' as u8;
    let low: u8 = d as u8;
    let code: u8 = zero + low;
    code as char
}

/// A whole number in decimal.
pub fn decimal_text(n: i32) -> (r: Vec<char>)
    ensures
        r@ == decimal(n as int),
{
    let wide: i64 = n as i64;
    let magnitude: i64 = if wide < 0 {
        -wide
    } else {
        wide
    };
    let all: u32 = magnitude as u32;
    let mut rest: u32 = all / 10;
    let mut digits: Vec<char> = Vec::new();
    digits.push(digit(all % 10));
    assert(all >= 10 ==> decimal_digits(all as nat) =~= decimal_digits(rest as nat) + digits@);
    assert(all < 10 ==> decimal_digits(all as nat) =~= digits@);
    while rest > 0
        invariant
            digits@.len() > 0,
            rest > 0 ==> decimal_digits(all as nat) == decimal_digits(rest as nat) + digits@,
            rest == 0 ==> decimal_digits(all as nat) == digits@,
        decreases rest,
    {
        let ghost before = digits@;
        let c = digit(rest % 10);
        digits.insert(0, c);
        assert(digits@ =~= seq![c] + before);
        proof {
            if rest >= 10 {
                assert(decimal_digits(rest as nat) + before =~= decimal_digits((rest / 10) as nat)
                    + (seq![c] + before));
            } else {
                assert(decimal_digits(rest as nat) + before =~= seq![c] + before);
            }
        }
        rest = rest / 10;
    }
    if n < 0 {
        let ghost before = digits@;
        digits.insert(0, '-');
        assert(digits@ =~= seq!['-'] + before);
    }
    digits
}

/// `s` with zeros in front until it is `width` characters long.
pub fn pad_with_zeros(s: Vec<char>, width: usize) -> (r: Vec<char>)
    ensures
        r@ == zero_padded(s@, width as nat),
{
    let mut padded = s;
    while padded.len() < width
        invariant
            zero_padded(padded@, width as nat) == zero_padded(s@, width as nat),
        decreases width - padded.len(),
    {
        let ghost before = padded@;
        padded.insert(0, '0');
        assert(padded@ =~= seq!['0'] + before);
    }
    padded
}

} // verus!
