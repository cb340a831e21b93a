//! Personal dictionary and replacement rules: validation of what a user
//! enters, the bounded recognition prompt built from dictionary terms, and the
//! non-cascading, longest-match-first application of replacement rules.
use vstd::prelude::*;

use crate::storage::{spec_schema_action, SchemaAction};
use crate::text::{
    chars_of, decimal, is_blank, lemma_trim_empty_iff_blank, signed_decimal, str_byte_len,
    trim, trimmed, usize_to_decimal, i64_to_decimal, utf8_bytes, lemma_utf8_bytes_concat,
};

verus! {

/// Version of the personalization database layout this library understands.
pub const SCHEMA_VERSION: i64 = 1;

/// Largest dictionary term or replacement source, in UTF-8 bytes.
pub const MAX_TERM_BYTES: usize = 256;

/// Largest replacement destination, in UTF-8 bytes.
pub const MAX_REPLACEMENT_BYTES: usize = 1024;

/// Largest number of entries one listing may return.
pub const MAX_LIST_LIMIT: u32 = 1000;

#[derive(Debug, Clone, PartialEq, Eq)]
pub struct DictionaryTerm {
    pub id: i64,
    pub term: String,
    pub created_at_unix_ms: i64,
}

#[derive(Debug, Clone, PartialEq, Eq)]
pub struct ReplacementRule {
    pub id: i64,
    pub source: String,
    pub replacement: String,
    pub created_at_unix_ms: i64,
}

#[derive(Debug, Clone, PartialEq, Eq)]
pub enum PersonalizationError {
    InvalidInput(String),
    InvalidPath(String),
    UnsupportedSchema { found: i64, supported: i64 },
    Database(String),
    CorruptData(String),
}

impl PersonalizationError {
    /// The text a user is shown for this error.
    pub open spec fn spec_message(&self) -> Seq<char> {
        match self {
            PersonalizationError::InvalidInput(m) => m@,
            PersonalizationError::InvalidPath(m) => m@,
            PersonalizationError::Database(m) => m@,
            PersonalizationError::CorruptData(m) => m@,
            PersonalizationError::UnsupportedSchema { found, supported } => "personalization database schema "@
                + signed_decimal(*found as int) + " is newer than supported schema "@
                + signed_decimal(*supported as int),
        }
    }

    pub fn message(&self) -> (message: String)
        ensures
            message@ == self.spec_message(),
    {
        match self {
            PersonalizationError::InvalidInput(m) => m.clone(),
            PersonalizationError::InvalidPath(m) => m.clone(),
            PersonalizationError::Database(m) => m.clone(),
            PersonalizationError::CorruptData(m) => m.clone(),
            PersonalizationError::UnsupportedSchema { found, supported } => {
                let mut message = String::from_str("personalization database schema ");
                message.append(i64_to_decimal(*found).as_str());
                message.append(" is newer than supported schema ");
                message.append(i64_to_decimal(*supported).as_str());
                message
            },
        }
    }
}

/// Whether `value`, once trimmed, is a valid entry of at most `max_bytes` bytes.
pub open spec fn spec_entry_valid(value: Seq<char>, max_bytes: nat) -> bool {
    &&& !is_blank(value)
    &&& utf8_bytes(trim(value)) <= max_bytes
    &&& !trim(value).contains('\0')
}

/// Checks a user-entered term: it is trimmed, must not be empty, must fit in
/// `max_bytes` UTF-8 bytes and must not contain NUL. Returns the trimmed value.
pub fn validate_non_empty(label: &str, value: &str, max_bytes: usize) -> (result: Result<
    String,
    PersonalizationError,
>)
    ensures
        match result {
            Ok(v) => spec_entry_valid(value@, max_bytes as nat) && v@ == trim(value@),
            Err(PersonalizationError::InvalidInput(m)) => !spec_entry_valid(value@, max_bytes as nat)
                && m@ == (if is_blank(value@) {
                label@ + " cannot be empty"@
            } else if utf8_bytes(trim(value@)) > max_bytes {
                label@ + " cannot exceed "@ + decimal(max_bytes as nat) + " UTF-8 bytes"@
            } else {
                label@ + " cannot contain NUL characters"@
            }),
            Err(_) => false,
        },
{
    let entry = trimmed(value);
    proof {
        lemma_trim_empty_iff_blank(value@);
    }
    if entry.as_str().is_empty() {
        let mut message = String::from_str(label);
        message.append(" cannot be empty");
        return Err(PersonalizationError::InvalidInput(message));
    }
    if str_byte_len(entry.as_str()) > max_bytes {
        let mut message = String::from_str(label);
        message.append(" cannot exceed ");
        message.append(usize_to_decimal(max_bytes).as_str());
        message.append(" UTF-8 bytes");
        return Err(PersonalizationError::InvalidInput(message));
    }
    if crate::text::contains_char(entry.as_str(), '\0') {
        let mut message = String::from_str(label);
        message.append(" cannot contain NUL characters");
        return Err(PersonalizationError::InvalidInput(message));
    }
    Ok(entry)
}

/// A listing asks for between one and `MAX_LIST_LIMIT` entries.
pub fn validate_limit(limit: u32) -> (result: Result<(), PersonalizationError>)
    ensures
        match result {
            Ok(()) => 1 <= limit <= MAX_LIST_LIMIT,
            Err(PersonalizationError::InvalidInput(m)) => (limit == 0 || limit > MAX_LIST_LIMIT)
                && m@ == "list limit must be between 1 and "@ + decimal(MAX_LIST_LIMIT as nat),
            Err(_) => false,
        },
{
    if limit == 0 || limit > MAX_LIST_LIMIT {
        let mut message = String::from_str("list limit must be between 1 and ");
        message.append(u64_digits_of_limit().as_str());
        return Err(PersonalizationError::InvalidInput(message));
    }
    Ok(())
}

fn u64_digits_of_limit() -> (digits: String)
    ensures
        digits@ == decimal(MAX_LIST_LIMIT as nat),
{
    crate::text::u64_to_decimal(MAX_LIST_LIMIT as u64)
}

/// Stored entries are addressed by positive identifiers.
pub fn validate_entry_id(id: i64) -> (result: Result<(), PersonalizationError>)
    ensures
        match result {
            Ok(()) => id > 0,
            Err(PersonalizationError::InvalidInput(m)) => id <= 0 && m@ == "entry id must be positive"@,
            Err(_) => false,
        },
{
    if id <= 0 {
        return Err(PersonalizationError::InvalidInput(String::from_str("entry id must be positive")));
    }
    Ok(())
}

/// Whether a replacement rule from `source` to `replacement` may be stored.
pub open spec fn spec_replacement_valid(source: Seq<char>, replacement: Seq<char>) -> bool {
    &&& spec_entry_valid(source, MAX_TERM_BYTES as nat)
    &&& spec_entry_valid(replacement, MAX_REPLACEMENT_BYTES as nat)
    &&& trim(source) != trim(replacement)
}

/// Checks a replacement rule before it is stored and returns its trimmed
/// source and destination. A rule that maps a source to itself is refused.
pub fn validate_replacement(source: &str, replacement: &str) -> (result: Result<
    (String, String),
    PersonalizationError,
>)
    ensures
        match result {
            Ok((s, r)) => spec_replacement_valid(source@, replacement@) && s@ == trim(source@) && r@
                == trim(replacement@),
            Err(PersonalizationError::InvalidInput(_)) => !spec_replacement_valid(
                source@,
                replacement@,
            ),
            Err(_) => false,
        },
{
    let source = validate_non_empty("replacement source", source, MAX_TERM_BYTES)?;
    let replacement = validate_non_empty(
        "replacement destination",
        replacement,
        MAX_REPLACEMENT_BYTES,
    )?;
    if crate::text::str_eq(source.as_str(), replacement.as_str()) {
        return Err(
            PersonalizationError::InvalidInput(
                String::from_str("replacement source and destination must differ"),
            ),
        );
    }
    Ok((source, replacement))
}

/// The prompt built from `terms` so far (`acc`): each term, in order, is
/// appended after a `", "` separator while the whole still fits in `max_bytes`;
/// the first term that does not fit ends the prompt.
pub open spec fn spec_prompt_fold(acc: Seq<char>, terms: Seq<Seq<char>>, max_bytes: nat) -> Seq<
    char,
>
    decreases terms.len(),
{
    if terms.len() == 0 {
        acc
    } else {
        let separator = if acc.len() == 0 {
            Seq::<char>::empty()
        } else {
            ", "@
        };
        if utf8_bytes(acc) + utf8_bytes(separator) + utf8_bytes(terms[0]) > max_bytes {
            acc
        } else {
            spec_prompt_fold(acc + separator + terms[0], terms.drop_first(), max_bytes)
        }
    }
}

pub open spec fn term_texts(terms: Seq<DictionaryTerm>) -> Seq<Seq<char>> {
    terms.map_values(|t: DictionaryTerm| t.term@)
}

/// The recognition prompt for `terms` under a budget of `max_bytes`.
pub open spec fn spec_dictionary_prompt(terms: Seq<DictionaryTerm>, max_bytes: nat) -> Option<
    Seq<char>,
> {
    if max_bytes == 0 {
        None
    } else {
        let prompt = spec_prompt_fold(Seq::empty(), term_texts(terms), max_bytes);
        if prompt.len() == 0 {
            None
        } else {
            Some(prompt)
        }
    }
}

/// Builds the recognition prompt from dictionary terms in listing order: terms
/// are joined by `", "` as long as the prompt stays within `max_bytes` UTF-8
/// bytes. `None` when nothing fits or the budget is zero.
pub fn dictionary_prompt(terms: &[DictionaryTerm], max_bytes: usize) -> (prompt: Option<String>)
    ensures
        match prompt {
            Some(p) => spec_dictionary_prompt(terms@, max_bytes as nat) == Some(p@),
            None => spec_dictionary_prompt(terms@, max_bytes as nat) is None,
        },
{
    if max_bytes == 0 {
        return None;
    }
    let ghost texts = term_texts(terms@);
    let mut prompt = String::new();
    let mut prompt_bytes: usize = 0;
    let mut i: usize = 0;
    let total = terms.len();
    proof {
        assert(texts.subrange(0, total as int) =~= texts);
    }
    while i < total
        invariant
            total == terms@.len(),
            texts == term_texts(terms@),
            i <= total,
            prompt_bytes == utf8_bytes(prompt@),
            prompt_bytes <= max_bytes,
            spec_prompt_fold(Seq::empty(), texts, max_bytes as nat) == spec_prompt_fold(
                prompt@,
                texts.subrange(i as int, total as int),
                max_bytes as nat,
            ),
        ensures
            spec_prompt_fold(Seq::empty(), texts, max_bytes as nat) == prompt@,
        decreases total - i,
    {
        proof {
            if i == total {
                assert(texts.subrange(i as int, total as int).len() == 0);
            }
        }
        let term = terms[i].term.as_str();
        let term_bytes = str_byte_len(term);
        let separator_bytes: usize = if prompt.as_str().is_empty() { 0 } else { 2 };
        let ghost separator = if prompt@.len() == 0 {
            Seq::<char>::empty()
        } else {
            ", "@
        };
        proof {
            assert(texts.subrange(i as int, total as int)[0] == term@);
            assert(texts.subrange(i as int, total as int).drop_first() =~= texts.subrange(
                i + 1,
                total as int,
            ));
            reveal_with_fuel(utf8_bytes, 3);
            reveal_strlit(", ");
            assert(", "@ =~= seq![',', ' ']);
            assert(utf8_bytes(separator) == separator_bytes) by {
                if prompt@.len() != 0 {
                    assert(seq![',', ' '].drop_last() =~= seq![',']);
                    assert(seq![','].drop_last() =~= Seq::<char>::empty());
                }
            }
        }
        if term_bytes > max_bytes - prompt_bytes || separator_bytes > max_bytes - prompt_bytes
            - term_bytes {
            break;
        }
        let ghost before = prompt@;
        if separator_bytes == 2 {
            prompt.append(", ");
        }
        prompt.append(term);
        proof {
            assert(prompt@ =~= before + separator + term@);
            lemma_utf8_bytes_concat(before, separator);
            lemma_utf8_bytes_concat(before + separator, term@);
        }
        prompt_bytes = prompt_bytes + separator_bytes + term_bytes;
        i = i + 1;
    }
    if prompt.as_str().is_empty() {
        None
    } else {
        Some(prompt)
    }
}

/// Whether `text` begins with `pattern`.
pub open spec fn starts_with(text: Seq<char>, pattern: Seq<char>) -> bool {
    pattern.len() <= text.len() && text.subrange(0, pattern.len() as int) == pattern
}

/// Whether rule `a` (at position `ia`) is tried before rule `b` (at `ib`):
/// longer sources (in UTF-8 bytes) first, then lower identifiers, then the
/// order in which the rules were given.
pub open spec fn rule_precedes(a: ReplacementRule, ia: int, b: ReplacementRule, ib: int) -> bool {
    ||| utf8_bytes(a.source@) > utf8_bytes(b.source@)
    ||| (utf8_bytes(a.source@) == utf8_bytes(b.source@) && a.id < b.id)
    ||| (utf8_bytes(a.source@) == utf8_bytes(b.source@) && a.id == b.id && ia < ib)
}

/// Among the first `n` rules, the index of the first rule in trial order whose
/// source begins `text`.
pub open spec fn best_rule(text: Seq<char>, rules: Seq<ReplacementRule>, n: int) -> Option<int>
    decreases n,
{
    if n <= 0 {
        None
    } else {
        let previous = best_rule(text, rules, n - 1);
        if starts_with(text, rules[n - 1].source@) && (previous is None || rule_precedes(
            rules[n - 1],
            n - 1,
            rules[previous->0],
            previous->0,
        )) {
            Some(n - 1)
        } else {
            previous
        }
    }
}

/// The rule applied at the start of `text`, if any.
pub open spec fn rule_at(text: Seq<char>, rules: Seq<ReplacementRule>) -> Option<int> {
    best_rule(text, rules, rules.len() as int)
}

/// Replacement of `text` by `rules`, scanning left to right: where a rule's
/// source begins the rest of the text, the first such rule in trial order is
/// applied and scanning resumes after the replaced source; otherwise one
/// character is kept. Replaced text is never scanned again.
pub open spec fn spec_apply_rules(text: Seq<char>, rules: Seq<ReplacementRule>) -> Seq<char>
    decreases text.len(),
{
    if text.len() == 0 {
        Seq::empty()
    } else {
        match rule_at(text, rules) {
            Some(i) => {
                let k = rules[i].source@.len();
                if 0 < k <= text.len() {
                    rules[i].replacement@ + spec_apply_rules(text.subrange(k as int, text.len() as int), rules)
                } else {
                    seq![text[0]] + spec_apply_rules(text.subrange(1, text.len() as int), rules)
                }
            },
            None => seq![text[0]] + spec_apply_rules(text.subrange(1, text.len() as int), rules),
        }
    }
}

/// Every rule has a non-empty source.
pub open spec fn sources_non_empty(rules: Seq<ReplacementRule>) -> bool {
    forall|i: int| 0 <= i < rules.len() ==> #[trigger] rules[i].source@.len() > 0
}

proof fn lemma_best_rule_bounds(text: Seq<char>, rules: Seq<ReplacementRule>, n: int)
    requires
        n <= rules.len(),
    ensures
        best_rule(text, rules, n) matches Some(i) ==> 0 <= i < n && starts_with(
            text,
            rules[i].source@,
        ),
    decreases n,
{
    if n > 0 {
        lemma_best_rule_bounds(text, rules, n - 1);
    }
}

/// Whether `text[pos..]` begins with `pattern`, comparing character by character.
fn matches_at(text: &Vec<char>, pos: usize, pattern: &Vec<char>) -> (found: bool)
    requires
        pos <= text@.len(),
    ensures
        found == starts_with(text@.subrange(pos as int, text@.len() as int), pattern@),
{
    let ghost rest = text@.subrange(pos as int, text@.len() as int);
    let text_len = text.len();
    if pattern.len() > text_len - pos {
        return false;
    }
    let mut k: usize = 0;
    while k < pattern.len()
        invariant
            text_len == text@.len(),
            pos + pattern@.len() <= text@.len(),
            rest == text@.subrange(pos as int, text@.len() as int),
            k <= pattern@.len(),
            forall|j: int| 0 <= j < k ==> text@[pos + j] == pattern@[j],
        decreases pattern@.len() - k,
    {
        if text[pos + k] != pattern[k] {
            assert(rest.subrange(0, pattern@.len() as int)[k as int] != pattern@[k as int]);
            return false;
        }
        k = k + 1;
    }
    assert(rest.subrange(0, pattern@.len() as int) =~= pattern@);
    true
}

/// Applies replacement rules to `text` without cascading: the output of one
/// rule is never matched again. At each position the longest matching source
/// (in UTF-8 bytes) wins, ties going to the lower identifier.
pub fn apply_rules_non_cascading(text: &str, rules: &[ReplacementRule]) -> (output: String)
    requires
        sources_non_empty(rules@),
    ensures
        output@ == spec_apply_rules(text@, rules@),
{
    let chars = chars_of(text);
    let total = chars.len();
    let count = rules.len();
    let mut sources: Vec<Vec<char>> = Vec::new();
    let mut source_bytes: Vec<usize> = Vec::new();
    let mut r: usize = 0;
    while r < count
        invariant
            count == rules@.len(),
            r <= count,
            sources@.len() == r,
            source_bytes@.len() == r,
            forall|j: int| 0 <= j < r ==> #[trigger] sources@[j]@ == rules@[j].source@,
            forall|j: int| 0 <= j < r ==> #[trigger] source_bytes@[j] == utf8_bytes(rules@[j].source@),
        decreases count - r,
    {
        sources.push(chars_of(rules[r].source.as_str()));
        source_bytes.push(str_byte_len(rules[r].source.as_str()));
        r = r + 1;
    }
    let mut output = String::new();
    let mut pos: usize = 0;
    proof {
        assert(chars@.subrange(0, total as int) =~= text@);
        assert(output@ + spec_apply_rules(text@, rules@) =~= spec_apply_rules(text@, rules@));
    }
    while pos < total
        invariant
            total == chars@.len(),
            chars@ == text@,
            count == rules@.len(),
            sources_non_empty(rules@),
            sources@.len() == count,
            source_bytes@.len() == count,
            forall|j: int| 0 <= j < count ==> #[trigger] sources@[j]@ == rules@[j].source@,
            forall|j: int| 0 <= j < count ==> #[trigger] source_bytes@[j] == utf8_bytes(rules@[j].source@),
            pos <= total,
            output@ + spec_apply_rules(chars@.subrange(pos as int, total as int), rules@)
                == spec_apply_rules(text@, rules@),
        decreases total - pos,
    {
        let ghost rest = chars@.subrange(pos as int, total as int);
        let mut best: Option<usize> = None;
        let mut j: usize = 0;
        while j < count
            invariant
                total == chars@.len(),
                pos < total,
                rest == chars@.subrange(pos as int, total as int),
                count == rules@.len(),
                sources@.len() == count,
                source_bytes@.len() == count,
                forall|q: int| 0 <= q < count ==> #[trigger] sources@[q]@ == rules@[q].source@,
                forall|q: int| 0 <= q < count ==> #[trigger] source_bytes@[q] == utf8_bytes(rules@[q].source@),
                j <= count,
                best matches Some(b) ==> b < j,
                match best {
                    Some(b) => best_rule(rest, rules@, j as int) == Some(b as int),
                    None => best_rule(rest, rules@, j as int) is None,
                },
            decreases count - j,
        {
            if matches_at(&chars, pos, &sources[j]) {
                let better = match best {
                    None => true,
                    Some(b) => source_bytes[j] > source_bytes[b] || (source_bytes[j] == source_bytes[b]
                        && rules[j].id < rules[b].id),
                };
                proof {
                    lemma_best_rule_bounds(rest, rules@, j as int);
                }
                if better {
                    best = Some(j);
                }
            }
            j = j + 1;
        }
        proof {
            lemma_best_rule_bounds(rest, rules@, count as int);
            assert(rest.len() > 0);
        }
        match best {
            Some(b) => {
                let k = sources[b].len();
                proof {
                    assert(k > 0);
                    assert(rest.subrange(k as int, rest.len() as int) =~= chars@.subrange(
                        pos + k,
                        total as int,
                    ));
                }
                output.append(rules[b].replacement.as_str());
                pos = pos + k;
            },
            None => {
                proof {
                    assert(rest.subrange(1, rest.len() as int) =~= chars@.subrange(
                        pos + 1,
                        total as int,
                    ));
                }
                crate::text::string_push(&mut output, chars[pos]);
                pos = pos + 1;
            },
        }
    }
    proof {
        assert(chars@.subrange(total as int, total as int).len() == 0);
        assert(output@ + Seq::<char>::empty() =~= output@);
    }
    output
}

proof fn lemma_prompt_fold_within_budget(acc: Seq<char>, terms: Seq<Seq<char>>, max_bytes: nat)
    requires
        utf8_bytes(acc) <= max_bytes,
    ensures
        utf8_bytes(spec_prompt_fold(acc, terms, max_bytes)) <= max_bytes,
    decreases terms.len(),
{
    if terms.len() > 0 {
        let separator = if acc.len() == 0 {
            Seq::<char>::empty()
        } else {
            ", "@
        };
        if utf8_bytes(acc) + utf8_bytes(separator) + utf8_bytes(terms[0]) <= max_bytes {
            lemma_utf8_bytes_concat(acc, separator);
            lemma_utf8_bytes_concat(acc + separator, terms[0]);
            lemma_prompt_fold_within_budget(acc + separator + terms[0], terms.drop_first(), max_bytes);
        }
    }
}

/// The recognition prompt never exceeds its byte budget.
pub proof fn law_prompt_within_budget(terms: Seq<DictionaryTerm>, max_bytes: nat)
    ensures
        spec_dictionary_prompt(terms, max_bytes) matches Some(p) ==> utf8_bytes(p) <= max_bytes,
{
    lemma_prompt_fold_within_budget(Seq::empty(), term_texts(terms), max_bytes);
}

proof fn lemma_best_rule_is_first_in_trial_order(
    text: Seq<char>,
    rules: Seq<ReplacementRule>,
    n: int,
    j: int,
)
    requires
        0 <= j < n <= rules.len(),
        starts_with(text, rules[j].source@),
    ensures
        best_rule(text, rules, n) matches Some(i) && (i == j || rule_precedes(rules[i], i, rules[j], j)),
    decreases n,
{
    lemma_best_rule_bounds(text, rules, n - 1);
    if j < n - 1 {
        lemma_best_rule_is_first_in_trial_order(text, rules, n - 1, j);
    }
}

/// Where several rule sources begin the text, the rule applied is the first of
/// them in trial order: its source is at least as long, in UTF-8 bytes, as
/// every other matching source.
pub proof fn law_longest_match_wins(text: Seq<char>, rules: Seq<ReplacementRule>, j: int)
    requires
        0 <= j < rules.len(),
        starts_with(text, rules[j].source@),
    ensures
        rule_at(text, rules) matches Some(i) && starts_with(text, rules[i].source@) && (i == j
            || rule_precedes(rules[i], i, rules[j], j)) && utf8_bytes(rules[i].source@)
            >= utf8_bytes(rules[j].source@),
{
    lemma_best_rule_is_first_in_trial_order(text, rules, rules.len() as int, j);
    lemma_best_rule_bounds(text, rules, rules.len() as int);
}

/// Replacements do not cascade: when a rule applies at the start of the text,
/// the output begins with its replacement verbatim and the rest of the output
/// comes from the text after the replaced source alone.
pub proof fn law_replacements_do_not_cascade(text: Seq<char>, rules: Seq<ReplacementRule>)
    requires
        sources_non_empty(rules),
        text.len() > 0,
        rule_at(text, rules) is Some,
    ensures
        ({
            let i = rule_at(text, rules)->0;
            let k = rules[i].source@.len() as int;
            &&& spec_apply_rules(text, rules) == rules[i].replacement@ + spec_apply_rules(
                text.subrange(k, text.len() as int),
                rules,
            )
            &&& spec_apply_rules(text, rules).subrange(0, rules[i].replacement@.len() as int)
                == rules[i].replacement@
        }),
{
    lemma_best_rule_bounds(text, rules, rules.len() as int);
    let i = rule_at(text, rules)->0;
    let k = rules[i].source@.len() as int;
    let rest = spec_apply_rules(text.subrange(k, text.len() as int), rules);
    assert((rules[i].replacement@ + rest).subrange(0, rules[i].replacement@.len() as int)
        =~= rules[i].replacement@);
}

/// Text in which no rule source begins at any position is returned unchanged.
pub proof fn law_unmatched_text_is_unchanged(text: Seq<char>, rules: Seq<ReplacementRule>)
    requires
        forall|p: int, j: int|
            0 <= p < text.len() && 0 <= j < rules.len() ==> !starts_with(
                #[trigger] text.subrange(p, text.len() as int),
                #[trigger] rules[j].source@,
            ),
    ensures
        spec_apply_rules(text, rules) == text,
    decreases text.len(),
{
    if text.len() > 0 {
        lemma_best_rule_bounds(text, rules, rules.len() as int);
        assert(text.subrange(0, text.len() as int) =~= text);
        if rule_at(text, rules) is Some {
            let j = rule_at(text, rules)->0;
            assert(!starts_with(text.subrange(0, text.len() as int), rules[j].source@));
        }
        let tail = text.subrange(1, text.len() as int);
        assert forall|p: int, j: int|
            0 <= p < tail.len() && 0 <= j < rules.len() implies !starts_with(
            #[trigger] tail.subrange(p, tail.len() as int),
            #[trigger] rules[j].source@,
        ) by {
            assert(tail.subrange(p, tail.len() as int) =~= text.subrange(p + 1, text.len() as int));
            assert(!starts_with(text.subrange(p + 1, text.len() as int), rules[j].source@));
        }
        law_unmatched_text_is_unchanged(tail, rules);
        assert(seq![text[0]] + tail =~= text);
    }
}

/// Byte budget of the dictionary prompt handed to recognition.
pub const DICTIONARY_PROMPT_MAX_BYTES: usize = 1024;

/// Default number of entries a listing returns when none is asked for.
pub const DEFAULT_LIST_LIMIT: u32 = 500;

#[derive(Debug, Clone, PartialEq, Eq)]
pub struct PersonalizationHealthDto {
    pub available: bool,
    pub database_path: String,
    pub last_error: Option<String>,
}

#[derive(Debug, Clone, PartialEq, Eq)]
pub struct DictionaryTermDto {
    pub id: i64,
    pub term: String,
    pub created_at_unix_ms: i64,
}

impl From<DictionaryTerm> for DictionaryTermDto {
    fn from(term: DictionaryTerm) -> (dto: Self) {
        DictionaryTermDto { id: term.id, term: term.term, created_at_unix_ms: term.created_at_unix_ms }
    }
}

impl vstd::std_specs::convert::FromSpecImpl<DictionaryTerm> for DictionaryTermDto {
    open spec fn obeys_from_spec() -> bool {
        true
    }

    open spec fn from_spec(term: DictionaryTerm) -> Self {
        DictionaryTermDto { id: term.id, term: term.term, created_at_unix_ms: term.created_at_unix_ms }
    }
}

#[derive(Debug, Clone, PartialEq, Eq)]
pub struct ReplacementRuleDto {
    pub id: i64,
    pub source: String,
    pub replacement: String,
    pub created_at_unix_ms: i64,
}

impl From<ReplacementRule> for ReplacementRuleDto {
    fn from(rule: ReplacementRule) -> (dto: Self) {
        ReplacementRuleDto {
            id: rule.id,
            source: rule.source,
            replacement: rule.replacement,
            created_at_unix_ms: rule.created_at_unix_ms,
        }
    }
}

impl vstd::std_specs::convert::FromSpecImpl<ReplacementRule> for ReplacementRuleDto {
    open spec fn obeys_from_spec() -> bool {
        true
    }

    open spec fn from_spec(rule: ReplacementRule) -> Self {
        ReplacementRuleDto {
            id: rule.id,
            source: rule.source,
            replacement: rule.replacement,
            created_at_unix_ms: rule.created_at_unix_ms,
        }
    }
}

/// Decides what opening a personalization database whose recorded version is
/// `found` requires; a newer database is refused without touching it.
pub fn plan_migration(found: i64) -> (result: Result<SchemaAction, PersonalizationError>)
    ensures
        match result {
            Ok(action) => spec_schema_action(found, SCHEMA_VERSION) == Ok::<SchemaAction, (i64, i64)>(action),
            Err(PersonalizationError::UnsupportedSchema { found: f, supported: s }) => spec_schema_action(
                found,
                SCHEMA_VERSION,
            ) == Err::<SchemaAction, (i64, i64)>((f, s)),
            Err(_) => false,
        },
{
    if found > SCHEMA_VERSION {
        Err(PersonalizationError::UnsupportedSchema { found, supported: SCHEMA_VERSION })
    } else if found == SCHEMA_VERSION {
        Ok(SchemaAction::VerifyExisting)
    } else if found == 0 {
        Ok(SchemaAction::CreateTables)
    } else {
        Ok(SchemaAction::NoChange)
    }
}

/// The error reported when a database declares the current version but lacks
/// one of its tables.
pub fn missing_table(table: &str) -> (error: PersonalizationError)
    ensures
        error.spec_message() == "personalization database declares schema version 1 but "@ + table@
            + " is missing"@,
        error is CorruptData,
{
    let mut message = String::from_str("personalization database declares schema version 1 but ");
    message.append(table);
    message.append(" is missing");
    PersonalizationError::CorruptData(message)
}

} // verus!
