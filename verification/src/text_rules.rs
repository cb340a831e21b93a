//! Dictionary aliases and literal replacement rules applied to transcripts:
//! the rule document, its normalization, its edits, and the case-insensitive,
//! word-boundary-aware literal replacement.
use vstd::prelude::*;

use crate::text::{
    chars_of, is_blank, lemma_trim_empty_iff_blank, lemma_trim_idempotent, lemma_utf8_bytes_prefix_increasing,
    prefix_byte_offsets, str_byte_len, str_eq, string_from_range, trim, trimmed, u64_to_decimal,
    decimal, utf8_bytes,
};

verus! {

/// Version of the text-rules document this library writes.
pub const TEXT_RULES_SCHEMA_VERSION: u32 = 1;

/// Name of the file that holds the text-rules document.
pub const TEXT_RULES_FILE_NAME: &'static str = "text-rules.json";

/// What `str::to_lowercase` returns for a string with these characters.
pub uninterp spec fn str_lowercase(s: Seq<char>) -> Seq<char>;

/// What `char::is_alphanumeric` returns for a character.
pub uninterp spec fn char_alphanumeric(c: char) -> bool;

/// `str::to_lowercase`: the Unicode lowercase mapping of `s`, which depends on
/// the characters of `s` alone (not on a locale).
#[verifier::external_body]
pub(crate) fn lowercase(s: &str) -> (lower: String)
    ensures
        lower@ == str_lowercase(s@),
{
    s.to_lowercase()
}

/// `char::is_alphanumeric`: whether `c` has the Unicode Alphabetic or Numeric
/// property.
#[verifier::external_body]
fn is_alphanumeric(c: char) -> (alphanumeric: bool)
    ensures
        alphanumeric == char_alphanumeric(c),
{
    c.is_alphanumeric()
}

/// A character that continues a word: alphanumeric or `_`.
pub open spec fn is_word_char(c: char) -> bool {
    char_alphanumeric(c) || c == '_'
}

fn is_word_character(c: char) -> (word: bool)
    ensures
        word == is_word_char(c),
{
    is_alphanumeric(c) || c == '_'
}

/// Whether `text[from..]` has its first occurrence of `pattern` at `p`: the
/// smallest index at or after `from` where `pattern` occurs.
pub open spec fn find_from(text: Seq<char>, pattern: Seq<char>, from: int) -> Option<int>
    decreases text.len() + 1 - from,
{
    if from < 0 || from + pattern.len() > text.len() {
        None
    } else if text.subrange(from, from + pattern.len()) == pattern {
        Some(from)
    } else {
        find_from(text, pattern, from + 1)
    }
}

/// The first index `k` at or after `from` at which `chars[..k]` takes exactly
/// `byte` bytes: the character index of a byte offset, when it is a character
/// boundary.
pub open spec fn char_index_from(chars: Seq<char>, byte: int, from: int) -> Option<int>
    decreases chars.len() + 1 - from,
{
    if from < 0 || from > chars.len() {
        None
    } else if utf8_bytes(chars.subrange(0, from)) == byte {
        Some(from)
    } else {
        char_index_from(chars, byte, from + 1)
    }
}

pub open spec fn char_index_of_byte(chars: Seq<char>, byte: int) -> Option<int> {
    char_index_from(chars, byte, 0)
}

/// Whether the occurrence `input[start..end]` stands on word boundaries when
/// `whole_word` asks for them.
pub open spec fn boundary_ok(input: Seq<char>, start: int, end: int, whole_word: bool) -> bool {
    !whole_word || (!(start > 0 && is_word_char(input[start - 1])) && !(end < input.len()
        && is_word_char(input[end])))
}

/// Replacement from position `pos` of the haystack on, with `input[last..]`
/// not yet copied. Occurrences are found in `haystack` left to right without
/// overlap; their byte offsets address `input`. `None` where such an offset
/// does not fall on a character boundary of `input`.
pub open spec fn replace_from(
    input: Seq<char>,
    haystack: Seq<char>,
    search: Seq<char>,
    replacement: Seq<char>,
    whole_word: bool,
    pos: int,
    last: int,
) -> Option<Seq<char>>
    decreases haystack.len() - pos,
{
    if search.len() == 0 || pos < 0 || last < 0 || last > input.len() {
        None
    } else {
        match find_from(haystack, search, pos) {
            None => Some(input.subrange(last, input.len() as int)),
            Some(p) => {
                let e = p + search.len();
                if !(pos <= p && e <= haystack.len()) {
                    None
                } else {
                    let start_byte = utf8_bytes(haystack.subrange(0, p));
                    let end_byte = utf8_bytes(haystack.subrange(0, e));
                    let last_byte = utf8_bytes(input.subrange(0, last));
                    match (char_index_of_byte(input, start_byte as int), char_index_of_byte(input, end_byte as int)) {
                        (Some(ks), Some(ke)) => {
                            if start_byte < last_byte || !boundary_ok(input, ks, ke, whole_word) {
                                replace_from(input, haystack, search, replacement, whole_word, e, last)
                            } else {
                                match replace_from(
                                    input,
                                    haystack,
                                    search,
                                    replacement,
                                    whole_word,
                                    e,
                                    ke,
                                ) {
                                    Some(rest) => Some(input.subrange(last, ks) + replacement + rest),
                                    None => None,
                                }
                            }
                        },
                        _ => None,
                    }
                }
            },
        }
    }
}

/// What is searched, and for what: lowercase forms when matching ignores case
/// and lowercasing keeps both byte lengths; the texts themselves otherwise.
pub open spec fn search_texts(input: Seq<char>, needle: Seq<char>, case_sensitive: bool) -> (
    Seq<char>,
    Seq<char>,
) {
    if case_sensitive {
        (input, needle)
    } else {
        let folded_input = str_lowercase(input);
        let folded_needle = str_lowercase(needle);
        if utf8_bytes(folded_input) == utf8_bytes(input) && utf8_bytes(folded_needle) == utf8_bytes(
            needle,
        ) {
            (folded_input, folded_needle)
        } else {
            (input, needle)
        }
    }
}

/// Literal replacement of `needle` in `input`; `None` where matching by the
/// byte offsets of the lowercased text would cut `input` inside a character.
pub open spec fn spec_replace_literal(
    input: Seq<char>,
    needle: Seq<char>,
    replacement: Seq<char>,
    whole_word: bool,
    case_sensitive: bool,
) -> Option<Seq<char>> {
    if needle.len() == 0 || input.len() == 0 {
        Some(input)
    } else {
        let (haystack, search) = search_texts(input, needle, case_sensitive);
        if search.len() == 0 {
            None
        } else {
            replace_from(input, haystack, search, replacement, whole_word, 0, 0)
        }
    }
}

proof fn lemma_find_from_bounds(text: Seq<char>, pattern: Seq<char>, from: int)
    ensures
        find_from(text, pattern, from) matches Some(p) ==> from <= p && p + pattern.len() <= text.len()
            && text.subrange(p, p + pattern.len()) == pattern,
    decreases text.len() + 1 - from,
{
    if !(from < 0 || from + pattern.len() > text.len()) && text.subrange(from, from + pattern.len())
        != pattern {
        lemma_find_from_bounds(text, pattern, from + 1);
    }
}

/// The character index of byte offset `byte` in the text whose prefix offsets
/// are `offsets`.
fn char_index_of(chars: &Vec<char>, offsets: &Vec<usize>, byte: usize) -> (index: Option<usize>)
    requires
        offsets@.len() == chars@.len() + 1,
        forall|k: int| 0 <= k <= chars@.len() ==> #[trigger] offsets@[k] == utf8_bytes(chars@.subrange(0, k)),
    ensures
        match index {
            Some(k) => char_index_of_byte(chars@, byte as int) == Some(k as int),
            None => char_index_of_byte(chars@, byte as int) is None,
        },
{
    let mut k: usize = 0;
    let n = offsets.len();
    while k < n
        invariant
            n == offsets@.len(),
            offsets@.len() == chars@.len() + 1,
            forall|j: int| 0 <= j <= chars@.len() ==> #[trigger] offsets@[j] == utf8_bytes(chars@.subrange(0, j)),
            k <= n,
            char_index_of_byte(chars@, byte as int) == char_index_from(chars@, byte as int, k as int),
        decreases n - k,
    {
        if offsets[k] == byte {
            return Some(k);
        }
        k = k + 1;
    }
    None
}

/// Whether `pattern` occurs in `text` at `pos`.
fn occurs_at(text: &Vec<char>, pos: usize, pattern: &Vec<char>) -> (found: bool)
    requires
        pos + pattern@.len() <= text@.len(),
    ensures
        found == (text@.subrange(pos as int, pos + pattern@.len()) == pattern@),
{
    let mut k: usize = 0;
    let text_len = text.len();
    while k < pattern.len()
        invariant
            text_len == text@.len(),
            pos + pattern@.len() <= text@.len(),
            k <= pattern@.len(),
            forall|j: int| 0 <= j < k ==> text@[pos + j] == pattern@[j],
        decreases pattern@.len() - k,
    {
        if text[pos + k] != pattern[k] {
            assert(text@.subrange(pos as int, pos + pattern@.len())[k as int] != pattern@[k as int]);
            return false;
        }
        k = k + 1;
    }
    assert(text@.subrange(pos as int, pos + pattern@.len()) =~= pattern@);
    true
}

/// The first occurrence of `pattern` in `text` at or after `from`.
fn find_occurrence(text: &Vec<char>, pattern: &Vec<char>, from: usize) -> (found: Option<usize>)
    requires
        from <= text@.len(),
    ensures
        match found {
            Some(p) => find_from(text@, pattern@, from as int) == Some(p as int),
            None => find_from(text@, pattern@, from as int) is None,
        },
{
    let mut q = from;
    let len = text.len();
    let plen = pattern.len();
    while plen <= len - q
        invariant
            len == text@.len(),
            plen == pattern@.len(),
            from <= q <= len,
            find_from(text@, pattern@, from as int) == find_from(text@, pattern@, q as int),
        decreases len + 1 - q,
    {
        if occurs_at(text, q, pattern) {
            return Some(q);
        }
        assert(plen > 0) by {
            if plen == 0 {
                assert(text@.subrange(q as int, q as int) =~= pattern@);
            }
        }
        q = q + 1;
    }
    None
}

pub open spec fn prepend_opt(prefix: Seq<char>, rest: Option<Seq<char>>) -> Option<Seq<char>> {
    match rest {
        Some(r) => Some(prefix + r),
        None => None,
    }
}

proof fn lemma_char_index_bounds(chars: Seq<char>, byte: int, from: int)
    ensures
        char_index_from(chars, byte, from) matches Some(k) ==> from <= k <= chars.len() && utf8_bytes(
            chars.subrange(0, k),
        ) == byte,
    decreases chars.len() + 1 - from,
{
    if !(from < 0 || from > chars.len()) && utf8_bytes(chars.subrange(0, from)) != byte {
        lemma_char_index_bounds(chars, byte, from + 1);
    }
}

/// Replaces the occurrences of `needle` in `input` by `replacement`, left to
/// right and without overlap; with `whole_word`, only occurrences not preceded
/// or followed by a word character. Unless `case_sensitive`, matching compares
/// lowercase forms. `None` where an occurrence found in the lowercase form does
/// not fall on character boundaries of `input`.
pub fn replace_literal_checked(
    input: &str,
    needle: &str,
    replacement: &str,
    whole_word: bool,
    case_sensitive: bool,
) -> (output: Option<String>)
    ensures
        match output {
            Some(s) => spec_replace_literal(input@, needle@, replacement@, whole_word, case_sensitive)
                == Some(s@),
            None => spec_replace_literal(input@, needle@, replacement@, whole_word, case_sensitive) is None,
        },
{
    let input_chars = chars_of(input);
    let needle_chars = chars_of(needle);
    if needle_chars.len() == 0 || input_chars.len() == 0 {
        return Some(String::from_str(input));
    }
    let input_bytes = str_byte_len(input);
    let needle_bytes = str_byte_len(needle);
    let folded_input;
    let folded_needle;
    let (haystack_text, search_text): (&str, &str) = if case_sensitive {
        (input, needle)
    } else {
        folded_input = lowercase(input);
        folded_needle = lowercase(needle);
        if str_byte_len(folded_input.as_str()) == input_bytes && str_byte_len(folded_needle.as_str())
            == needle_bytes {
            (folded_input.as_str(), folded_needle.as_str())
        } else {
            (input, needle)
        }
    };
    assert((haystack_text@, search_text@) == search_texts(input@, needle@, case_sensitive));
    let haystack = chars_of(haystack_text);
    let search = chars_of(search_text);
    if search.len() == 0 {
        return None;
    }
    let input_offsets = prefix_byte_offsets(&input_chars, input_bytes);
    let haystack_offsets = prefix_byte_offsets(&haystack, str_byte_len(haystack_text));
    let ghost whole = replace_from(input@, haystack@, search@, replacement@, whole_word, 0, 0);
    assert(spec_replace_literal(input@, needle@, replacement@, whole_word, case_sensitive) == whole);
    let mut out = String::new();
    let mut pos: usize = 0;
    let mut last: usize = 0;
    let haystack_len = haystack.len();
    proof {
        assert(out@ + Seq::<char>::empty() =~= Seq::<char>::empty());
        match whole {
            Some(w) => assert(out@ + w =~= w),
            None => {},
        }
    }
    loop
        invariant
            spec_replace_literal(input@, needle@, replacement@, whole_word, case_sensitive) == whole,
            input_chars@ == input@,
            haystack_len == haystack@.len(),
            search@.len() > 0,
            input_offsets@.len() == input_chars@.len() + 1,
            forall|k: int| 0 <= k <= input_chars@.len() ==> #[trigger] input_offsets@[k] == utf8_bytes(
                input_chars@.subrange(0, k),
            ),
            haystack_offsets@.len() == haystack@.len() + 1,
            forall|k: int| 0 <= k <= haystack@.len() ==> #[trigger] haystack_offsets@[k] == utf8_bytes(
                haystack@.subrange(0, k),
            ),
            pos <= haystack@.len(),
            last <= input_chars@.len(),
            whole == prepend_opt(
                out@,
                replace_from(input@, haystack@, search@, replacement@, whole_word, pos as int, last as int),
            ),
        decreases haystack@.len() - pos,
    {
        let found = find_occurrence(&haystack, &search, pos);
        proof {
            lemma_find_from_bounds(haystack@, search@, pos as int);
        }
        match found {
            None => {
                let tail = string_from_range(&input_chars, last, input_chars.len());
                let ghost before_out = out@;
                out.append(tail.as_str());
                assert(replace_from(input@, haystack@, search@, replacement@, whole_word, pos as int, last as int)
                    == Some(input@.subrange(last as int, input@.len() as int)));
                assert(whole == Some(out@));
                return Some(out);
            },
            Some(p) => {
                let e = p + search.len();
                let start_byte = haystack_offsets[p];
                let end_byte = haystack_offsets[e];
                let last_byte = input_offsets[last];
                let start_index = char_index_of(&input_chars, &input_offsets, start_byte);
                let end_index = char_index_of(&input_chars, &input_offsets, end_byte);
                proof {
                    lemma_char_index_bounds(input@, start_byte as int, 0);
                    lemma_char_index_bounds(input@, end_byte as int, 0);
                }
                match (start_index, end_index) {
                    (Some(ks), Some(ke)) => {
                        let ok = if whole_word {
                            let before = ks > 0 && is_word_character(input_chars[ks - 1]);
                            let after = ke < input_chars.len() && is_word_character(input_chars[ke]);
                            !before && !after
                        } else {
                            true
                        };
                        assert(ok == boundary_ok(input@, ks as int, ke as int, whole_word));
                        if start_byte < last_byte || !ok {
                            pos = e;
                        } else {
                            proof {
                                if ks < last {
                                    lemma_utf8_bytes_prefix_increasing(input@, ks as int, last as int);
                                }
                            }
                            let ghost before_out = out@;
                            let piece = string_from_range(&input_chars, last, ks);
                            out.append(piece.as_str());
                            out.append(replacement);
                            proof {
                                let rest = replace_from(
                                    input@,
                                    haystack@,
                                    search@,
                                    replacement@,
                                    whole_word,
                                    e as int,
                                    ke as int,
                                );
                                match rest {
                                    Some(r) => {
                                        assert(before_out + (input@.subrange(last as int, ks as int)
                                            + replacement@ + r) =~= out@ + r);
                                    },
                                    None => {},
                                }
                            }
                            pos = e;
                            last = ke;
                        }
                    },
                    _ => {
                        return None;
                    },
                }
            },
        }
    }
}

/// `spec_replace_literal` when it is defined.
pub fn replace_literal(
    input: &str,
    needle: &str,
    replacement: &str,
    whole_word: bool,
    case_sensitive: bool,
) -> (output: String)
    requires
        spec_replace_literal(input@, needle@, replacement@, whole_word, case_sensitive) is Some,
    ensures
        spec_replace_literal(input@, needle@, replacement@, whole_word, case_sensitive) == Some(output@),
{
    match replace_literal_checked(input, needle, replacement, whole_word, case_sensitive) {
        Some(output) => output,
        None => String::new(),
    }
}

/// The views of a list of strings.
pub open spec fn views(strings: Seq<String>) -> Seq<Seq<char>> {
    strings.map_values(|s: String| s@)
}

/// `sorted` with `x` placed after every element at least as long as `x`.
pub open spec fn insert_by_len(x: Seq<char>, sorted: Seq<Seq<char>>) -> Seq<Seq<char>>
    decreases sorted.len(),
{
    if sorted.len() == 0 {
        seq![x]
    } else if sorted[0].len() < x.len() {
        seq![x] + sorted
    } else {
        seq![sorted[0]] + insert_by_len(x, sorted.drop_first())
    }
}

/// Stable sort by decreasing length (in characters).
pub open spec fn sort_by_len_desc(s: Seq<Seq<char>>) -> Seq<Seq<char>>
    decreases s.len(),
{
    if s.len() == 0 {
        Seq::empty()
    } else {
        insert_by_len(s.last(), sort_by_len_desc(s.drop_last()))
    }
}

/// `s` with each run of equal neighbours reduced to one element.
pub open spec fn dedup(s: Seq<Seq<char>>) -> Seq<Seq<char>>
    decreases s.len(),
{
    if s.len() <= 1 {
        s
    } else if s.last() == s[s.len() - 2] {
        dedup(s.drop_last())
    } else {
        dedup(s.drop_last()).push(s.last())
    }
}

/// The first index of `sorted` holding an element shorter than `x`.
pub open spec fn first_shorter(x: Seq<char>, sorted: Seq<Seq<char>>, from: int) -> int
    decreases sorted.len() - from,
{
    if from >= sorted.len() || from < 0 {
        sorted.len() as int
    } else if sorted[from].len() < x.len() {
        from
    } else {
        first_shorter(x, sorted, from + 1)
    }
}

proof fn lemma_insert_by_len_at(x: Seq<char>, sorted: Seq<Seq<char>>)
    ensures
        0 <= first_shorter(x, sorted, 0) <= sorted.len(),
        insert_by_len(x, sorted) == sorted.subrange(0, first_shorter(x, sorted, 0)) + seq![x]
            + sorted.subrange(first_shorter(x, sorted, 0), sorted.len() as int),
    decreases sorted.len(),
{
    if sorted.len() == 0 {
        assert(insert_by_len(x, sorted) =~= seq![x]);
        assert(sorted.subrange(0, 0) + seq![x] + sorted.subrange(0, 0) =~= seq![x]);
    } else if sorted[0].len() < x.len() {
        assert(sorted.subrange(0, 0) + seq![x] + sorted.subrange(0, sorted.len() as int) =~= seq![x]
            + sorted);
    } else {
        let rest = sorted.drop_first();
        lemma_insert_by_len_at(x, rest);
        lemma_first_shorter_shift(x, sorted, 1);
        let k = first_shorter(x, rest, 0);
        assert(first_shorter(x, sorted, 0) == k + 1);
        assert(seq![sorted[0]] + (rest.subrange(0, k) + seq![x] + rest.subrange(k, rest.len() as int))
            =~= sorted.subrange(0, k + 1) + seq![x] + sorted.subrange(k + 1, sorted.len() as int));
    }
}

proof fn lemma_first_shorter_shift(x: Seq<char>, sorted: Seq<Seq<char>>, from: int)
    requires
        1 <= from <= sorted.len(),
        forall|j: int| 0 <= j < from ==> !(#[trigger] sorted[j].len() < x.len()),
    ensures
        first_shorter(x, sorted, 0) == first_shorter(x, sorted.drop_first(), from - 1) + 1,
    decreases sorted.len() - from,
{
    if from < sorted.len() && !(sorted[from].len() < x.len()) {
        lemma_first_shorter_shift(x, sorted, from + 1);
    } else {
        lemma_first_shorter_prefix(x, sorted, from);
    }
}

proof fn lemma_first_shorter_prefix(x: Seq<char>, sorted: Seq<Seq<char>>, from: int)
    requires
        0 <= from <= sorted.len(),
        forall|j: int| 0 <= j < from ==> !(#[trigger] sorted[j].len() < x.len()),
    ensures
        first_shorter(x, sorted, 0) == first_shorter(x, sorted, from),
        from >= 1 ==> first_shorter(x, sorted.drop_first(), from - 1) + 1 == first_shorter(
            x,
            sorted,
            from,
        ),
    decreases from,
{
    if from > 0 {
        lemma_first_shorter_prefix(x, sorted, from - 1);
        lemma_first_shorter_step(x, sorted, from - 1);
        if from >= 2 {
            lemma_first_shorter_step(x, sorted.drop_first(), from - 2);
        }
        lemma_first_shorter_drop(x, sorted, from);
    }
}

proof fn lemma_first_shorter_step(x: Seq<char>, sorted: Seq<Seq<char>>, from: int)
    requires
        0 <= from < sorted.len(),
        !(sorted[from].len() < x.len()),
    ensures
        first_shorter(x, sorted, from) == first_shorter(x, sorted, from + 1),
{
}

proof fn lemma_first_shorter_drop(x: Seq<char>, sorted: Seq<Seq<char>>, from: int)
    requires
        1 <= from <= sorted.len(),
    ensures
        first_shorter(x, sorted.drop_first(), from - 1) + 1 == first_shorter(x, sorted, from),
    decreases sorted.len() - from,
{
    if from < sorted.len() && !(sorted[from].len() < x.len()) {
        lemma_first_shorter_drop(x, sorted, from + 1);
    }
}

/// The strings of `strings`, stably sorted by decreasing character count.
fn sort_by_char_count_desc(strings: &Vec<String>) -> (sorted: Vec<String>)
    ensures
        views(sorted@) == sort_by_len_desc(views(strings@)),
{
    let mut sorted: Vec<String> = Vec::new();
    let mut i: usize = 0;
    let n = strings.len();
    proof {
        assert(views(strings@).subrange(0, 0) =~= Seq::<Seq<char>>::empty());
        assert(views(sorted@) =~= Seq::<Seq<char>>::empty());
    }
    while i < n
        invariant
            n == strings@.len(),
            i <= n,
            views(sorted@) == sort_by_len_desc(views(strings@).subrange(0, i as int)),
        decreases n - i,
    {
        let x = strings[i].clone();
        let x_len = chars_of(x.as_str()).len();
        let ghost before = views(sorted@);
        let mut k: usize = 0;
        while k < sorted.len() && chars_of(sorted[k].as_str()).len() >= x_len
            invariant
                k <= sorted@.len(),
                before == views(sorted@),
                x_len == x@.len(),
                first_shorter(x@, before, 0) == first_shorter(x@, before, k as int),
            decreases sorted@.len() - k,
        {
            proof {
                lemma_first_shorter_step(x@, before, k as int);
            }
            k = k + 1;
        }
        proof {
            lemma_insert_by_len_at(x@, before);
            assert(views(strings@).subrange(0, i + 1).drop_last() =~= views(strings@).subrange(
                0,
                i as int,
            ));
            assert(views(strings@).subrange(0, i + 1).last() == x@);
        }
        sorted.insert(k, x);
        proof {
            assert(views(sorted@) =~= before.subrange(0, k as int) + seq![x@] + before.subrange(
                k as int,
                before.len() as int,
            ));
        }
        i = i + 1;
    }
    proof {
        assert(views(strings@).subrange(0, n as int) =~= views(strings@));
    }
    sorted
}

/// `strings` with each run of equal neighbours reduced to one element.
fn dedup_strings(strings: &Vec<String>) -> (out: Vec<String>)
    ensures
        views(out@) == dedup(views(strings@)),
{
    let mut out: Vec<String> = Vec::new();
    let mut i: usize = 0;
    let n = strings.len();
    proof {
        assert(views(strings@).subrange(0, 0) =~= Seq::<Seq<char>>::empty());
        assert(views(out@) =~= Seq::<Seq<char>>::empty());
    }
    while i < n
        invariant
            n == strings@.len(),
            i <= n,
            views(out@) == dedup(views(strings@).subrange(0, i as int)),
        decreases n - i,
    {
        let ghost prefix = views(strings@).subrange(0, i + 1);
        proof {
            assert(prefix.drop_last() =~= views(strings@).subrange(0, i as int));
        }
        if i == 0 || !str_eq(strings[i].as_str(), strings[i - 1].as_str()) {
            let ghost before = views(out@);
            out.push(strings[i].clone());
            proof {
                assert(views(out@) =~= before.push(strings@[i as int]@));
                if i == 0 {
                    assert(prefix =~= seq![strings@[0]@]);
                    assert(dedup(Seq::<Seq<char>>::empty()) =~= Seq::<Seq<char>>::empty());
                }
            }
        }
        i = i + 1;
    }
    proof {
        assert(views(strings@).subrange(0, n as int) =~= views(strings@));
    }
    out
}

#[derive(Debug, Clone, PartialEq, Eq)]
pub struct DictionaryEntry {
    pub id: u64,
    pub term: String,
    pub aliases: Vec<String>,
    pub enabled: bool,
}

#[derive(Debug, Clone, PartialEq, Eq)]
pub struct ReplacementRule {
    pub id: u64,
    pub from: String,
    pub to: String,
    pub enabled: bool,
    pub whole_word: bool,
}

/// The strings a dictionary entry replaces by its term, in the order tried:
/// its aliases and the term itself, longest first, repeated neighbours once.
pub open spec fn entry_sources(entry: DictionaryEntryView) -> Seq<Seq<char>> {
    dedup(sort_by_len_desc(entry.aliases.push(entry.term)))
}

/// Replacing each of `sources` in turn by `term`, on whole words, ignoring case.
pub open spec fn apply_sources(text: Option<Seq<char>>, sources: Seq<Seq<char>>, term: Seq<char>) -> Option<
    Seq<char>,
>
    decreases sources.len(),
{
    if sources.len() == 0 {
        text
    } else {
        match text {
            None => None,
            Some(t) => apply_sources(
                spec_replace_literal(t, sources[0], term, true, false),
                sources.drop_first(),
                term,
            ),
        }
    }
}

/// Applying the enabled dictionary entries in order.
pub open spec fn apply_entries(text: Option<Seq<char>>, entries: Seq<DictionaryEntryView>) -> Option<
    Seq<char>,
>
    decreases entries.len(),
{
    if entries.len() == 0 {
        text
    } else {
        let next = if entries[0].enabled {
            apply_sources(text, entry_sources(entries[0]), entries[0].term)
        } else {
            text
        };
        apply_entries(next, entries.drop_first())
    }
}

/// Applying the enabled replacement rules in order, ignoring case.
pub open spec fn apply_replacements(text: Option<Seq<char>>, rules: Seq<ReplacementRuleView>) -> Option<
    Seq<char>,
>
    decreases rules.len(),
{
    if rules.len() == 0 {
        text
    } else {
        let next = if rules[0].enabled {
            match text {
                None => None,
                Some(t) => spec_replace_literal(t, rules[0].from, rules[0].to, rules[0].whole_word, false),
            }
        } else {
            text
        };
        apply_replacements(next, rules.drop_first())
    }
}

/// The text after all enabled dictionary entries, then all enabled
/// replacement rules; `None` where a replacement is undefined.
pub open spec fn spec_apply_document(text: Seq<char>, document: TextRulesDocumentView) -> Option<Seq<char>> {
    apply_replacements(apply_entries(Some(text), document.dictionary), document.replacements)
}

/// The sources of an entry, as its apply step computes them.
fn sources_of(entry: &DictionaryEntry) -> (sources: Vec<String>)
    ensures
        views(sources@) == entry_sources(entry@),
{
    let mut all: Vec<String> = Vec::new();
    let mut i: usize = 0;
    let n = entry.aliases.len();
    while i < n
        invariant
            n == entry.aliases@.len(),
            i <= n,
            views(all@) == views(entry.aliases@).subrange(0, i as int),
        decreases n - i,
    {
        let ghost before = all@;
        let alias = entry.aliases[i].clone();
        all.push(alias);
        proof {
            assert(all@ =~= before.push(alias));
            assert(views(all@) =~= views(before).push(alias@));
            assert(views(entry.aliases@).subrange(0, i + 1) =~= views(entry.aliases@).subrange(
                0,
                i as int,
            ).push(entry.aliases@[i as int]@));
        }
        i = i + 1;
    }
    let ghost before = all@;
    let term = entry.term.clone();
    all.push(term);
    proof {
        assert(all@ =~= before.push(term));
        assert(views(all@) =~= views(before).push(term@));
        assert(views(entry.aliases@).subrange(0, n as int) =~= views(entry.aliases@));
    }
    let sorted = sort_by_char_count_desc(&all);
    dedup_strings(&sorted)
}

/// Applies the dictionary sources of one entry in turn; `None` where one
/// replacement is undefined.
fn apply_entry_checked(text: String, entry: &DictionaryEntry) -> (output: Option<String>)
    ensures
        match output {
            Some(s) => apply_sources(Some(text@), entry_sources(entry@), entry.term@) == Some(s@),
            None => apply_sources(Some(text@), entry_sources(entry@), entry.term@) is None,
        },
{
    let sources = sources_of(entry);
    let ghost all = views(sources@);
    let mut current = text;
    let mut i: usize = 0;
    let n = sources.len();
    proof {
        assert(all.subrange(0, n as int) =~= all);
    }
    while i < n
        invariant
            n == sources@.len(),
            all == views(sources@),
            all == entry_sources(entry@),
            i <= n,
            apply_sources(Some(text@), all, entry.term@) == apply_sources(
                Some(current@),
                all.subrange(i as int, n as int),
                entry.term@,
            ),
        decreases n - i,
    {
        proof {
            assert(all.subrange(i as int, n as int).drop_first() =~= all.subrange(i + 1, n as int));
            assert(all.subrange(i as int, n as int)[0] == sources@[i as int]@);
        }
        match replace_literal_checked(current.as_str(), sources[i].as_str(), entry.term.as_str(), true, false) {
            Some(next) => {
                current = next;
            },
            None => {
                proof {
                    lemma_apply_sources_none(all.subrange(i + 1, n as int), entry.term@);
                }
                return None;
            },
        }
        i = i + 1;
    }
    proof {
        assert(all.subrange(n as int, n as int).len() == 0);
    }
    Some(current)
}

proof fn lemma_apply_sources_none(sources: Seq<Seq<char>>, term: Seq<char>)
    ensures
        apply_sources(None, sources, term) is None,
{
}

proof fn lemma_apply_entries_none(entries: Seq<DictionaryEntryView>)
    ensures
        apply_entries(None, entries) is None,
    decreases entries.len(),
{
    if entries.len() > 0 {
        lemma_apply_sources_none(entry_sources(entries[0]), entries[0].term);
        lemma_apply_entries_none(entries.drop_first());
    }
}

proof fn lemma_apply_replacements_none(rules: Seq<ReplacementRuleView>)
    ensures
        apply_replacements(None, rules) is None,
    decreases rules.len(),
{
    if rules.len() > 0 {
        lemma_apply_replacements_none(rules.drop_first());
    }
}

#[verifier::ext_equal]
pub struct DictionaryEntryView {
    pub id: u64,
    pub term: Seq<char>,
    pub aliases: Seq<Seq<char>>,
    pub enabled: bool,
}

impl View for DictionaryEntry {
    type V = DictionaryEntryView;

    open spec fn view(&self) -> DictionaryEntryView {
        DictionaryEntryView {
            id: self.id,
            term: self.term@,
            aliases: views(self.aliases@),
            enabled: self.enabled,
        }
    }
}

#[verifier::ext_equal]
pub struct ReplacementRuleView {
    pub id: u64,
    pub from: Seq<char>,
    pub to: Seq<char>,
    pub enabled: bool,
    pub whole_word: bool,
}

impl View for ReplacementRule {
    type V = ReplacementRuleView;

    open spec fn view(&self) -> ReplacementRuleView {
        ReplacementRuleView {
            id: self.id,
            from: self.from@,
            to: self.to@,
            enabled: self.enabled,
            whole_word: self.whole_word,
        }
    }
}

pub open spec fn entry_views(entries: Seq<DictionaryEntry>) -> Seq<DictionaryEntryView> {
    entries.map_values(|e: DictionaryEntry| e@)
}

pub open spec fn rule_views(rules: Seq<ReplacementRule>) -> Seq<ReplacementRuleView> {
    rules.map_values(|r: ReplacementRule| r@)
}

/// The persisted set of dictionary entries and replacement rules.
#[derive(Debug, Clone, PartialEq, Eq)]
pub struct TextRulesDocument {
    pub schema_version: u32,
    pub next_id: u64,
    pub dictionary: Vec<DictionaryEntry>,
    pub replacements: Vec<ReplacementRule>,
}

#[verifier::ext_equal]
pub struct TextRulesDocumentView {
    pub schema_version: u32,
    pub next_id: u64,
    pub dictionary: Seq<DictionaryEntryView>,
    pub replacements: Seq<ReplacementRuleView>,
}

impl View for TextRulesDocument {
    type V = TextRulesDocumentView;

    open spec fn view(&self) -> TextRulesDocumentView {
        TextRulesDocumentView {
            schema_version: self.schema_version,
            next_id: self.next_id,
            dictionary: entry_views(self.dictionary@),
            replacements: rule_views(self.replacements@),
        }
    }
}

impl Default for TextRulesDocument {
    fn default() -> (document: Self)
        ensures
            document@.schema_version == TEXT_RULES_SCHEMA_VERSION,
            document@.next_id == 1,
            document@.dictionary.len() == 0,
            document@.replacements.len() == 0,
    {
        TextRulesDocument {
            schema_version: TEXT_RULES_SCHEMA_VERSION,
            next_id: 1,
            dictionary: Vec::new(),
            replacements: Vec::new(),
        }
    }
}

#[derive(Debug, Clone, PartialEq, Eq)]
pub struct TextRulesError {
    message: String,
}

impl TextRulesError {
    pub closed spec fn spec_message(&self) -> Seq<char> {
        self.message@
    }

    pub fn new(message: String) -> (error: Self)
        ensures
            error.spec_message() == message@,
    {
        TextRulesError { message }
    }

    pub fn message(&self) -> (message: &str)
        ensures
            message@ == self.spec_message(),
    {
        self.message.as_str()
    }
}

/// The trimmed, non-blank form of a required value.
pub fn normalize_required(value: &str, label: &str) -> (result: Result<String, TextRulesError>)
    ensures
        match result {
            Ok(v) => !is_blank(value@) && v@ == trim(value@),
            Err(e) => is_blank(value@) && e.spec_message() == label@ + " cannot be blank"@,
        },
{
    let trimmed_value = trimmed(value);
    proof {
        lemma_trim_empty_iff_blank(value@);
    }
    if trimmed_value.as_str().is_empty() {
        let mut message = String::from_str(label);
        message.append(" cannot be blank");
        Err(TextRulesError::new(message))
    } else {
        Ok(trimmed_value)
    }
}

/// Trimmed values, in order, without blanks and without repeats.
pub open spec fn normalize_list_spec(values: Seq<Seq<char>>) -> Seq<Seq<char>>
    decreases values.len(),
{
    if values.len() == 0 {
        Seq::empty()
    } else {
        let previous = normalize_list_spec(values.drop_last());
        let value = trim(values.last());
        if value.len() == 0 || previous.contains(value) {
            previous
        } else {
            previous.push(value)
        }
    }
}

/// `values` without the elements equal to `x`.
pub open spec fn without(values: Seq<Seq<char>>, x: Seq<char>) -> Seq<Seq<char>>
    decreases values.len(),
{
    if values.len() == 0 {
        Seq::empty()
    } else {
        let previous = without(values.drop_last(), x);
        if values.last() == x {
            previous
        } else {
            previous.push(values.last())
        }
    }
}

fn list_contains(values: &Vec<String>, value: &str) -> (found: bool)
    ensures
        found == views(values@).contains(value@),
{
    let mut i: usize = 0;
    let n = values.len();
    while i < n
        invariant
            n == values@.len(),
            i <= n,
            forall|j: int| 0 <= j < i ==> #[trigger] values@[j]@ != value@,
        decreases n - i,
    {
        if str_eq(values[i].as_str(), value) {
            assert(views(values@)[i as int] == value@);
            return true;
        }
        i = i + 1;
    }
    proof {
        if views(values@).contains(value@) {
            let j = choose|j: int| 0 <= j < views(values@).len() && views(values@)[j] == value@;
            assert(values@[j]@ == value@);
        }
    }
    false
}

/// Trims each value and drops blanks and repeats, keeping the first occurrence.
pub fn normalize_list(values: &Vec<String>) -> (normalized: Vec<String>)
    ensures
        views(normalized@) == normalize_list_spec(views(values@)),
{
    let mut normalized: Vec<String> = Vec::new();
    let mut i: usize = 0;
    let n = values.len();
    proof {
        assert(views(values@).subrange(0, 0) =~= Seq::<Seq<char>>::empty());
        assert(views(normalized@) =~= Seq::<Seq<char>>::empty());
    }
    while i < n
        invariant
            n == values@.len(),
            i <= n,
            views(normalized@) == normalize_list_spec(views(values@).subrange(0, i as int)),
        decreases n - i,
    {
        let ghost prefix = views(values@).subrange(0, i + 1);
        proof {
            assert(prefix.drop_last() =~= views(values@).subrange(0, i as int));
            assert(prefix.last() == values@[i as int]@);
        }
        let value = trimmed(values[i].as_str());
        proof {
            lemma_trim_empty_iff_blank(values@[i as int]@);
        }
        if !value.as_str().is_empty() && !list_contains(&normalized, value.as_str()) {
            let ghost before = normalized@;
            normalized.push(value);
            proof {
                assert(views(normalized@) =~= views(before).push(trim(values@[i as int]@)));
            }
        }
        i = i + 1;
    }
    proof {
        assert(views(values@).subrange(0, n as int) =~= views(values@));
    }
    normalized
}

/// `values` without the elements equal to `x` (`Vec::retain`).
fn remove_equal(values: Vec<String>, x: &str) -> (kept: Vec<String>)
    ensures
        views(kept@) == without(views(values@), x@),
{
    let mut kept: Vec<String> = Vec::new();
    let mut i: usize = 0;
    let n = values.len();
    proof {
        assert(views(values@).subrange(0, 0) =~= Seq::<Seq<char>>::empty());
        assert(views(kept@) =~= Seq::<Seq<char>>::empty());
    }
    while i < n
        invariant
            n == values@.len(),
            i <= n,
            views(kept@) == without(views(values@).subrange(0, i as int), x@),
        decreases n - i,
    {
        let ghost prefix = views(values@).subrange(0, i + 1);
        proof {
            assert(prefix.drop_last() =~= views(values@).subrange(0, i as int));
            assert(prefix.last() == values@[i as int]@);
        }
        if !str_eq(values[i].as_str(), x) {
            let ghost before = kept@;
            kept.push(values[i].clone());
            proof {
                assert(views(kept@) =~= views(before).push(values@[i as int]@));
            }
        }
        i = i + 1;
    }
    proof {
        assert(views(values@).subrange(0, n as int) =~= views(values@));
    }
    kept
}

pub open spec fn normalize_entry(e: DictionaryEntryView) -> DictionaryEntryView {
    DictionaryEntryView {
        id: e.id,
        term: trim(e.term),
        aliases: without(normalize_list_spec(e.aliases), trim(e.term)),
        enabled: e.enabled,
    }
}

pub open spec fn normalize_rule(r: ReplacementRuleView) -> ReplacementRuleView {
    ReplacementRuleView {
        id: r.id,
        from: trim(r.from),
        to: trim(r.to),
        enabled: r.enabled,
        whole_word: r.whole_word,
    }
}

pub open spec fn max_u64(a: u64, b: u64) -> u64 {
    if a >= b {
        a
    } else {
        b
    }
}

pub open spec fn saturating_inc(a: u64) -> u64 {
    if a == u64::MAX {
        a
    } else {
        (a + 1) as u64
    }
}

pub open spec fn max_entry_id(entries: Seq<DictionaryEntryView>) -> u64
    decreases entries.len(),
{
    if entries.len() == 0 {
        0
    } else {
        max_u64(max_entry_id(entries.drop_last()), entries.last().id)
    }
}

pub open spec fn max_rule_id(rules: Seq<ReplacementRuleView>, start: u64) -> u64
    decreases rules.len(),
{
    if rules.len() == 0 {
        start
    } else {
        max_u64(max_rule_id(rules.drop_last(), start), rules.last().id)
    }
}

pub open spec fn rule_fields_present(r: ReplacementRuleView) -> bool {
    !is_blank(r.from) && !is_blank(r.to)
}

/// The message of the first blank replacement field, if any.
pub open spec fn rules_problem(rules: Seq<ReplacementRuleView>) -> Option<Seq<char>>
    decreases rules.len(),
{
    if rules.len() == 0 {
        None
    } else if is_blank(rules[0].from) {
        Some("replacement source cannot be blank"@)
    } else if is_blank(rules[0].to) {
        Some("replacement destination cannot be blank"@)
    } else {
        rules_problem(rules.drop_first())
    }
}

/// The normalized form of a document: terms, aliases, sources and destinations
/// trimmed; aliases without blanks, repeats or the term itself; the next
/// identifier above every identifier in use. Fails on the first blank term,
/// source or destination.
pub open spec fn spec_normalize(d: TextRulesDocumentView) -> Result<TextRulesDocumentView, Seq<char>> {
    if exists|i: int| 0 <= i < d.dictionary.len() && is_blank(#[trigger] d.dictionary[i].term) {
        Err("dictionary term cannot be blank"@)
    } else if rules_problem(d.replacements) is Some {
        Err(rules_problem(d.replacements)->0)
    } else {
        let highest = max_rule_id(d.replacements, max_entry_id(d.dictionary));
        Ok(
            TextRulesDocumentView {
                schema_version: TEXT_RULES_SCHEMA_VERSION,
                next_id: max_u64(max_u64(d.next_id, saturating_inc(highest)), 1),
                dictionary: d.dictionary.map_values(|e: DictionaryEntryView| normalize_entry(e)),
                replacements: d.replacements.map_values(|r: ReplacementRuleView| normalize_rule(r)),
            },
        )
    }
}

proof fn lemma_rules_problem_prefix(rules: Seq<ReplacementRuleView>, i: int)
    requires
        0 <= i < rules.len(),
        forall|j: int| 0 <= j < i ==> #[trigger] rule_fields_present(rules[j]),
    ensures
        rules_problem(rules) == rules_problem(rules.subrange(i, rules.len() as int)),
    decreases i,
{
    if i > 0 {
        assert(rules.drop_first().subrange(i - 1, rules.len() - 1) =~= rules.subrange(
            i,
            rules.len() as int,
        ));
        assert forall|j: int| 0 <= j < i - 1 implies #[trigger] rule_fields_present(rules.drop_first()[j]) by {
            assert(rules.drop_first()[j] == rules[j + 1]);
            assert(rule_fields_present(rules[j + 1]));
        }
        assert(rule_fields_present(rules[0]));
        lemma_rules_problem_prefix(rules.drop_first(), i - 1);
    } else {
        assert(rules.subrange(0, rules.len() as int) =~= rules);
    }
}

proof fn lemma_rules_problem_none(rules: Seq<ReplacementRuleView>)
    requires
        forall|j: int| 0 <= j < rules.len() ==> #[trigger] rule_fields_present(rules[j]),
    ensures
        rules_problem(rules) is None,
    decreases rules.len(),
{
    if rules.len() > 0 {
        assert forall|j: int| 0 <= j < rules.len() - 1 implies #[trigger] rule_fields_present(
            rules.drop_first()[j],
        ) by {
            assert(rules.drop_first()[j] == rules[j + 1]);
            assert(rule_fields_present(rules[j + 1]));
        }
        assert(rule_fields_present(rules[0]));
        lemma_rules_problem_none(rules.drop_first());
    }
}

impl TextRulesDocument {
    /// Normalizes the document in place; on failure it is left as it was.
    pub fn normalize(&mut self) -> (result: Result<(), TextRulesError>)
        ensures
            match result {
                Ok(()) => spec_normalize(old(self)@) == Ok::<TextRulesDocumentView, Seq<char>>(final(self)@),
                Err(e) => spec_normalize(old(self)@) == Err::<TextRulesDocumentView, Seq<char>>(
                    e.spec_message(),
                ) && final(self)@ == old(self)@,
            },
    {
        let ghost d = self@;
        let mut dictionary: Vec<DictionaryEntry> = Vec::new();
        let mut highest: u64 = 0;
        let mut i: usize = 0;
        let n = self.dictionary.len();
        proof {
            assert(d.dictionary.subrange(0, 0) =~= Seq::<DictionaryEntryView>::empty());
            assert(entry_views(dictionary@) =~= Seq::<DictionaryEntryView>::empty());
        }
        while i < n
            invariant
                d == self@,
                d == old(self)@,
                n == self.dictionary@.len(),
                d.dictionary.len() == n,
                i <= n,
                entry_views(dictionary@) == d.dictionary.subrange(0, i as int).map_values(
                    |e: DictionaryEntryView| normalize_entry(e),
                ),
                forall|j: int| 0 <= j < i ==> !is_blank(#[trigger] d.dictionary[j].term),
                highest == max_entry_id(d.dictionary.subrange(0, i as int)),
            decreases n - i,
        {
            let entry = &self.dictionary[i];
            assert(d.dictionary[i as int] == entry@);
            let term = match normalize_required(entry.term.as_str(), "dictionary term") {
                Ok(term) => term,
                Err(e) => {
                    proof {
                        assert(is_blank(d.dictionary[i as int].term));
                        reveal_strlit("dictionary term");
                        reveal_strlit(" cannot be blank");
                        reveal_strlit("dictionary term cannot be blank");
                        assert("dictionary term"@ + " cannot be blank"@ =~= "dictionary term cannot be blank"@);
                    }
                    return Err(e);
                },
            };
            let normalized_aliases = normalize_list(&entry.aliases);
            let aliases = remove_equal(normalized_aliases, term.as_str());
            let ghost before = entry_views(dictionary@);
            dictionary.push(DictionaryEntry { id: entry.id, term, aliases, enabled: entry.enabled });
            proof {
                assert(entry_views(dictionary@) =~= before.push(normalize_entry(entry@)));
                assert(d.dictionary.subrange(0, i + 1).map_values(
                    |e: DictionaryEntryView| normalize_entry(e),
                ) =~= d.dictionary.subrange(0, i as int).map_values(
                    |e: DictionaryEntryView| normalize_entry(e),
                ).push(normalize_entry(d.dictionary[i as int])));
                assert(d.dictionary.subrange(0, i + 1).drop_last() =~= d.dictionary.subrange(
                    0,
                    i as int,
                ));
            }
            if entry.id > highest {
                highest = entry.id;
            }
            i = i + 1;
        }
        proof {
            assert(d.dictionary.subrange(0, n as int) =~= d.dictionary);
        }
        let ghost entries_highest = highest;
        let mut replacements: Vec<ReplacementRule> = Vec::new();
        let mut i: usize = 0;
        let n = self.replacements.len();
        proof {
            assert(d.replacements.subrange(0, 0) =~= Seq::<ReplacementRuleView>::empty());
            assert(rule_views(replacements@) =~= Seq::<ReplacementRuleView>::empty());
        }
        while i < n
            invariant
                d == self@,
                d == old(self)@,
                n == self.replacements@.len(),
                d.replacements.len() == n,
                i <= n,
                entries_highest == max_entry_id(d.dictionary),
                forall|j: int| 0 <= j < d.dictionary.len() ==> !is_blank(#[trigger] d.dictionary[j].term),
                rule_views(replacements@) == d.replacements.subrange(0, i as int).map_values(
                    |r: ReplacementRuleView| normalize_rule(r),
                ),
                forall|j: int| 0 <= j < i ==> #[trigger] rule_fields_present(d.replacements[j]),
                highest == max_rule_id(d.replacements.subrange(0, i as int), entries_highest),
            decreases n - i,
        {
            let rule = &self.replacements[i];
            assert(d.replacements[i as int] == rule@);
            proof {
                lemma_rules_problem_prefix(d.replacements, i as int);
                assert(d.replacements.subrange(i as int, n as int)[0] == d.replacements[i as int]);
                reveal_strlit("replacement source");
                reveal_strlit("replacement destination");
                reveal_strlit(" cannot be blank");
                reveal_strlit("replacement source cannot be blank");
                reveal_strlit("replacement destination cannot be blank");
                assert("replacement source"@ + " cannot be blank"@ =~= "replacement source cannot be blank"@);
                assert("replacement destination"@ + " cannot be blank"@
                    =~= "replacement destination cannot be blank"@);
            }
            let from = match normalize_required(rule.from.as_str(), "replacement source") {
                Ok(from) => from,
                Err(e) => {
                    return Err(e);
                },
            };
            let to = match normalize_required(rule.to.as_str(), "replacement destination") {
                Ok(to) => to,
                Err(e) => {
                    return Err(e);
                },
            };
            let ghost before = rule_views(replacements@);
            replacements.push(
                ReplacementRule {
                    id: rule.id,
                    from,
                    to,
                    enabled: rule.enabled,
                    whole_word: rule.whole_word,
                },
            );
            proof {
                assert(rule_views(replacements@) =~= before.push(normalize_rule(rule@)));
                assert(d.replacements.subrange(0, i + 1).map_values(
                    |r: ReplacementRuleView| normalize_rule(r),
                ) =~= d.replacements.subrange(0, i as int).map_values(
                    |r: ReplacementRuleView| normalize_rule(r),
                ).push(normalize_rule(d.replacements[i as int])));
                assert(rule_fields_present(d.replacements[i as int]));
                assert(d.replacements.subrange(0, i + 1).drop_last() =~= d.replacements.subrange(
                    0,
                    i as int,
                ));
            }
            if rule.id > highest {
                highest = rule.id;
            }
            i = i + 1;
        }
        proof {
            assert(d.replacements.subrange(0, n as int) =~= d.replacements);
            lemma_rules_problem_none(d.replacements);
        }
        let candidate = highest.saturating_add(1);
        let mut next_id = if self.next_id >= candidate {
            self.next_id
        } else {
            candidate
        };
        if next_id < 1 {
            next_id = 1;
        }
        self.schema_version = TEXT_RULES_SCHEMA_VERSION;
        self.next_id = next_id;
        self.dictionary = dictionary;
        self.replacements = replacements;
        proof {
            assert(self@ =~= spec_normalize(d)->Ok_0);
        }
        Ok(())
    }

    /// Hands out the next identifier and advances the counter.
    pub fn allocate_id(&mut self) -> (id: u64)
        ensures
            id == max_u64(old(self).next_id, 1),
            final(self).next_id == saturating_inc(id),
            final(self).schema_version == old(self).schema_version,
            final(self).dictionary == old(self).dictionary,
            final(self).replacements == old(self).replacements,
    {
        let id = if self.next_id >= 1 {
            self.next_id
        } else {
            1
        };
        self.next_id = id.saturating_add(1);
        id
    }
}

/// Applies the enabled dictionary entries and then the enabled replacement
/// rules of `document` to `text`; `None` where a replacement is undefined.
pub fn apply_document_checked(text: &str, document: &TextRulesDocument) -> (output: Option<String>)
    ensures
        match output {
            Some(s) => spec_apply_document(text@, document@) == Some(s@),
            None => spec_apply_document(text@, document@) is None,
        },
{
    let ghost entries = document@.dictionary;
    let ghost rules = document@.replacements;
    let mut current = String::from_str(text);
    let mut i: usize = 0;
    let n = document.dictionary.len();
    proof {
        assert(entries.subrange(0, n as int) =~= entries);
    }
    while i < n
        invariant
            n == document.dictionary@.len(),
            entries == document@.dictionary,
            rules == document@.replacements,
            i <= n,
            apply_entries(Some(text@), entries) == apply_entries(
                Some(current@),
                entries.subrange(i as int, n as int),
            ),
        decreases n - i,
    {
        let entry = &document.dictionary[i];
        proof {
            assert(entries.subrange(i as int, n as int).drop_first() =~= entries.subrange(i + 1, n as int));
            assert(entries.subrange(i as int, n as int)[0] == entry@);
        }
        if entry.enabled {
            match apply_entry_checked(current, entry) {
                Some(next) => {
                    current = next;
                },
                None => {
                    proof {
                        lemma_apply_entries_none(entries.subrange(i + 1, n as int));
                        lemma_apply_replacements_none(rules);
                    }
                    return None;
                },
            }
        }
        i = i + 1;
    }
    proof {
        assert(entries.subrange(n as int, n as int).len() == 0);
    }
    let mut i: usize = 0;
    let n = document.replacements.len();
    proof {
        assert(rules.subrange(0, n as int) =~= rules);
    }
    while i < n
        invariant
            n == document.replacements@.len(),
            rules == document@.replacements,
            i <= n,
            spec_apply_document(text@, document@) == apply_replacements(
                Some(current@),
                rules.subrange(i as int, n as int),
            ),
        decreases n - i,
    {
        let rule = &document.replacements[i];
        proof {
            assert(rules.subrange(i as int, n as int).drop_first() =~= rules.subrange(i + 1, n as int));
            assert(rules.subrange(i as int, n as int)[0] == rule@);
        }
        if rule.enabled {
            match replace_literal_checked(
                current.as_str(),
                rule.from.as_str(),
                rule.to.as_str(),
                rule.whole_word,
                false,
            ) {
                Some(next) => {
                    current = next;
                },
                None => {
                    proof {
                        lemma_apply_replacements_none(rules.subrange(i + 1, n as int));
                    }
                    return None;
                },
            }
        }
        i = i + 1;
    }
    proof {
        assert(rules.subrange(n as int, n as int).len() == 0);
    }
    Some(current)
}

/// `spec_apply_document` when it is defined.
pub fn apply_document(text: &str, document: &TextRulesDocument) -> (output: String)
    requires
        spec_apply_document(text@, document@) is Some,
    ensures
        spec_apply_document(text@, document@) == Some(output@),
{
    match apply_document_checked(text, document) {
        Some(output) => output,
        None => String::new(),
    }
}

fn copy_strings(values: &Vec<String>) -> (copy: Vec<String>)
    ensures
        views(copy@) == views(values@),
{
    let mut copy: Vec<String> = Vec::new();
    let mut i: usize = 0;
    let n = values.len();
    while i < n
        invariant
            n == values@.len(),
            i <= n,
            views(copy@) == views(values@).subrange(0, i as int),
        decreases n - i,
    {
        let ghost before = copy@;
        let value = values[i].clone();
        copy.push(value);
        proof {
            assert(copy@ =~= before.push(value));
            assert(views(copy@) =~= views(before).push(value@));
            assert(views(values@).subrange(0, i + 1) =~= views(values@).subrange(0, i as int).push(
                values@[i as int]@,
            ));
        }
        i = i + 1;
    }
    proof {
        assert(views(values@).subrange(0, n as int) =~= views(values@));
    }
    copy
}

impl DictionaryEntry {
    /// A copy of the entry.
    pub fn duplicate(&self) -> (copy: DictionaryEntry)
        ensures
            copy@ == self@,
    {
        DictionaryEntry {
            id: self.id,
            term: self.term.clone(),
            aliases: copy_strings(&self.aliases),
            enabled: self.enabled,
        }
    }
}

impl ReplacementRule {
    /// A copy of the rule.
    pub fn duplicate(&self) -> (copy: ReplacementRule)
        ensures
            copy@ == self@,
    {
        ReplacementRule {
            id: self.id,
            from: self.from.clone(),
            to: self.to.clone(),
            enabled: self.enabled,
            whole_word: self.whole_word,
        }
    }
}

fn copy_entries(entries: &Vec<DictionaryEntry>) -> (copy: Vec<DictionaryEntry>)
    ensures
        entry_views(copy@) == entry_views(entries@),
{
    let mut copy: Vec<DictionaryEntry> = Vec::new();
    let mut i: usize = 0;
    let n = entries.len();
    while i < n
        invariant
            n == entries@.len(),
            i <= n,
            entry_views(copy@) == entry_views(entries@).subrange(0, i as int),
        decreases n - i,
    {
        let ghost before = copy@;
        let entry = entries[i].duplicate();
        copy.push(entry);
        proof {
            assert(copy@ =~= before.push(entry));
            assert(entry_views(copy@) =~= entry_views(before).push(entry@));
            assert(entry_views(entries@).subrange(0, i + 1) =~= entry_views(entries@).subrange(
                0,
                i as int,
            ).push(entries@[i as int]@));
        }
        i = i + 1;
    }
    proof {
        assert(entry_views(entries@).subrange(0, n as int) =~= entry_views(entries@));
    }
    copy
}

fn copy_rules(rules: &Vec<ReplacementRule>) -> (copy: Vec<ReplacementRule>)
    ensures
        rule_views(copy@) == rule_views(rules@),
{
    let mut copy: Vec<ReplacementRule> = Vec::new();
    let mut i: usize = 0;
    let n = rules.len();
    while i < n
        invariant
            n == rules@.len(),
            i <= n,
            rule_views(copy@) == rule_views(rules@).subrange(0, i as int),
        decreases n - i,
    {
        let ghost before = copy@;
        let rule = rules[i].duplicate();
        copy.push(rule);
        proof {
            assert(copy@ =~= before.push(rule));
            assert(rule_views(copy@) =~= rule_views(before).push(rule@));
            assert(rule_views(rules@).subrange(0, i + 1) =~= rule_views(rules@).subrange(
                0,
                i as int,
            ).push(rules@[i as int]@));
        }
        i = i + 1;
    }
    proof {
        assert(rule_views(rules@).subrange(0, n as int) =~= rule_views(rules@));
    }
    copy
}

impl TextRulesDocument {
    /// A copy of the document.
    pub fn duplicate(&self) -> (copy: TextRulesDocument)
        ensures
            copy@ == self@,
    {
        TextRulesDocument {
            schema_version: self.schema_version,
            next_id: self.next_id,
            dictionary: copy_entries(&self.dictionary),
            replacements: copy_rules(&self.replacements),
        }
    }
}

/// The entries and rules as shown to the user.
#[derive(Debug, Clone)]
pub struct TextRulesSnapshot {
    pub dictionary: Vec<DictionaryEntry>,
    pub replacements: Vec<ReplacementRule>,
}

impl TextRulesSnapshot {
    pub fn from_document(document: &TextRulesDocument) -> (snapshot: Self)
        ensures
            entry_views(snapshot.dictionary@) == document@.dictionary,
            rule_views(snapshot.replacements@) == document@.replacements,
    {
        TextRulesSnapshot {
            dictionary: copy_entries(&document.dictionary),
            replacements: copy_rules(&document.replacements),
        }
    }
}

/// The first index at or after `from` of the entry with identifier `id`.
pub open spec fn entry_index_from(entries: Seq<DictionaryEntryView>, id: u64, from: int) -> Option<int>
    decreases entries.len() - from,
{
    if from < 0 || from >= entries.len() {
        None
    } else if entries[from].id == id {
        Some(from)
    } else {
        entry_index_from(entries, id, from + 1)
    }
}

/// The first index at or after `from` of the rule with identifier `id`.
pub open spec fn rule_index_from(rules: Seq<ReplacementRuleView>, id: u64, from: int) -> Option<int>
    decreases rules.len() - from,
{
    if from < 0 || from >= rules.len() {
        None
    } else if rules[from].id == id {
        Some(from)
    } else {
        rule_index_from(rules, id, from + 1)
    }
}

/// The entries other than those with identifier `id`.
pub open spec fn entries_without(entries: Seq<DictionaryEntryView>, id: u64) -> Seq<DictionaryEntryView>
    decreases entries.len(),
{
    if entries.len() == 0 {
        Seq::empty()
    } else {
        let previous = entries_without(entries.drop_last(), id);
        if entries.last().id == id {
            previous
        } else {
            previous.push(entries.last())
        }
    }
}

/// The rules other than those with identifier `id`.
pub open spec fn rules_without(rules: Seq<ReplacementRuleView>, id: u64) -> Seq<ReplacementRuleView>
    decreases rules.len(),
{
    if rules.len() == 0 {
        Seq::empty()
    } else {
        let previous = rules_without(rules.drop_last(), id);
        if rules.last().id == id {
            previous
        } else {
            previous.push(rules.last())
        }
    }
}

pub open spec fn unwrap_or(value: Option<bool>, default: bool) -> bool {
    match value {
        Some(v) => v,
        None => default,
    }
}

/// Saving a dictionary entry: `Ok` holds the entry as saved and the document
/// after it, `Err` the message.
pub open spec fn spec_save_dictionary(
    d: TextRulesDocumentView,
    id: Option<u64>,
    term: Seq<char>,
    aliases: Seq<Seq<char>>,
    enabled: Option<bool>,
) -> Result<(DictionaryEntryView, TextRulesDocumentView), Seq<char>> {
    if is_blank(term) {
        Err("dictionary term cannot be blank"@)
    } else {
        let t = trim(term);
        let a = without(normalize_list_spec(aliases), t);
        let edited = match id {
            Some(i) => match entry_index_from(d.dictionary, i, 0) {
                None => Err("dictionary entry "@ + decimal(i as nat) + " does not exist"@),
                Some(j) => {
                    let entry = DictionaryEntryView {
                        id: d.dictionary[j].id,
                        term: t,
                        aliases: a,
                        enabled: unwrap_or(enabled, d.dictionary[j].enabled),
                    };
                    Ok((entry, TextRulesDocumentView { dictionary: d.dictionary.update(j, entry), ..d }))
                },
            },
            None => {
                let new_id = max_u64(d.next_id, 1);
                let entry = DictionaryEntryView {
                    id: new_id,
                    term: t,
                    aliases: a,
                    enabled: unwrap_or(enabled, true),
                };
                Ok(
                    (
                        entry,
                        TextRulesDocumentView {
                            next_id: saturating_inc(new_id),
                            dictionary: d.dictionary.push(entry),
                            ..d
                        },
                    ),
                )
            },
        };
        match edited {
            Err(m) => Err(m),
            Ok((entry, e)) => match spec_normalize(e) {
                Ok(n) => Ok((entry, n)),
                Err(m) => Err(m),
            },
        }
    }
}

/// Saving a replacement rule: `Ok` holds the rule as saved and the document
/// after it, `Err` the message.
pub open spec fn spec_save_replacement(
    d: TextRulesDocumentView,
    id: Option<u64>,
    from: Seq<char>,
    to: Seq<char>,
    enabled: Option<bool>,
    whole_word: Option<bool>,
) -> Result<(ReplacementRuleView, TextRulesDocumentView), Seq<char>> {
    if is_blank(from) {
        Err("replacement source cannot be blank"@)
    } else if is_blank(to) {
        Err("replacement destination cannot be blank"@)
    } else {
        let f = trim(from);
        let t = trim(to);
        let edited = match id {
            Some(i) => match rule_index_from(d.replacements, i, 0) {
                None => Err("replacement rule "@ + decimal(i as nat) + " does not exist"@),
                Some(j) => {
                    let rule = ReplacementRuleView {
                        id: d.replacements[j].id,
                        from: f,
                        to: t,
                        enabled: unwrap_or(enabled, d.replacements[j].enabled),
                        whole_word: unwrap_or(whole_word, d.replacements[j].whole_word),
                    };
                    Ok((rule, TextRulesDocumentView { replacements: d.replacements.update(j, rule), ..d }))
                },
            },
            None => {
                let new_id = max_u64(d.next_id, 1);
                let rule = ReplacementRuleView {
                    id: new_id,
                    from: f,
                    to: t,
                    enabled: unwrap_or(enabled, true),
                    whole_word: unwrap_or(whole_word, true),
                };
                Ok(
                    (
                        rule,
                        TextRulesDocumentView {
                            next_id: saturating_inc(new_id),
                            replacements: d.replacements.push(rule),
                            ..d
                        },
                    ),
                )
            },
        };
        match edited {
            Err(m) => Err(m),
            Ok((rule, e)) => match spec_normalize(e) {
                Ok(n) => Ok((rule, n)),
                Err(m) => Err(m),
            },
        }
    }
}

proof fn lemma_entry_index_bounds(entries: Seq<DictionaryEntryView>, id: u64, from: int)
    ensures
        entry_index_from(entries, id, from) matches Some(j) ==> from <= j < entries.len()
            && entries[j].id == id,
    decreases entries.len() - from,
{
    if !(from < 0 || from >= entries.len()) && entries[from].id != id {
        lemma_entry_index_bounds(entries, id, from + 1);
    }
}

proof fn lemma_rule_index_bounds(rules: Seq<ReplacementRuleView>, id: u64, from: int)
    ensures
        rule_index_from(rules, id, from) matches Some(j) ==> from <= j < rules.len() && rules[j].id == id,
    decreases rules.len() - from,
{
    if !(from < 0 || from >= rules.len()) && rules[from].id != id {
        lemma_rule_index_bounds(rules, id, from + 1);
    }
}

fn find_entry(entries: &Vec<DictionaryEntry>, id: u64) -> (index: Option<usize>)
    ensures
        match index {
            Some(j) => entry_index_from(entry_views(entries@), id, 0) == Some(j as int),
            None => entry_index_from(entry_views(entries@), id, 0) is None,
        },
{
    let mut j: usize = 0;
    let n = entries.len();
    while j < n
        invariant
            n == entries@.len(),
            j <= n,
            entry_index_from(entry_views(entries@), id, 0) == entry_index_from(
                entry_views(entries@),
                id,
                j as int,
            ),
        decreases n - j,
    {
        if entries[j].id == id {
            return Some(j);
        }
        j = j + 1;
    }
    None
}

fn find_rule(rules: &Vec<ReplacementRule>, id: u64) -> (index: Option<usize>)
    ensures
        match index {
            Some(j) => rule_index_from(rule_views(rules@), id, 0) == Some(j as int),
            None => rule_index_from(rule_views(rules@), id, 0) is None,
        },
{
    let mut j: usize = 0;
    let n = rules.len();
    while j < n
        invariant
            n == rules@.len(),
            j <= n,
            rule_index_from(rule_views(rules@), id, 0) == rule_index_from(rule_views(rules@), id, j as int),
        decreases n - j,
    {
        if rules[j].id == id {
            return Some(j);
        }
        j = j + 1;
    }
    None
}

/// The dictionary entries and replacement rules in force, with the edits a
/// user makes to them. Persisting the document is left to the caller, which
/// keeps the previous service when writing fails.
#[derive(Debug, Clone)]
pub struct TextRulesService {
    document: TextRulesDocument,
}

impl View for TextRulesService {
    type V = TextRulesDocumentView;

    closed spec fn view(&self) -> TextRulesDocumentView {
        self.document@
    }
}

impl TextRulesService {
    /// A service over a document just read: refused when it comes from a newer
    /// schema, normalized otherwise.
    pub fn from_document(document: TextRulesDocument) -> (result: Result<Self, TextRulesError>)
        ensures
            match result {
                Ok(service) => document@.schema_version <= TEXT_RULES_SCHEMA_VERSION && spec_normalize(
                    document@,
                ) == Ok::<TextRulesDocumentView, Seq<char>>(service@),
                Err(e) => (document@.schema_version > TEXT_RULES_SCHEMA_VERSION && e.spec_message()
                    == "text-rules schema "@ + decimal(document@.schema_version as nat)
                    + " is newer than this BLCVoice build supports (1)"@) || (document@.schema_version
                    <= TEXT_RULES_SCHEMA_VERSION && spec_normalize(document@) == Err::<
                    TextRulesDocumentView,
                    Seq<char>,
                >(e.spec_message())),
            },
    {
        if document.schema_version > TEXT_RULES_SCHEMA_VERSION {
            let mut message = String::from_str("text-rules schema ");
            message.append(u64_to_decimal(document.schema_version as u64).as_str());
            message.append(" is newer than this BLCVoice build supports (1)");
            return Err(TextRulesError::new(message));
        }
        let mut document = document;
        match document.normalize() {
            Ok(()) => Ok(TextRulesService { document }),
            Err(e) => Err(e),
        }
    }

    /// The document, for persisting it.
    pub fn document(&self) -> (document: &TextRulesDocument)
        ensures
            document@ == self@,
    {
        &self.document
    }

    pub fn snapshot(&self) -> (snapshot: TextRulesSnapshot)
        ensures
            entry_views(snapshot.dictionary@) == self@.dictionary,
            rule_views(snapshot.replacements@) == self@.replacements,
    {
        TextRulesSnapshot::from_document(&self.document)
    }

    /// Creates (`id` is `None`) or updates a dictionary entry.
    pub fn save_dictionary(
        &mut self,
        id: Option<u64>,
        term: String,
        aliases: Vec<String>,
        enabled: Option<bool>,
    ) -> (result: Result<DictionaryEntry, TextRulesError>)
        ensures
            match result {
                Ok(entry) => spec_save_dictionary(old(self)@, id, term@, views(aliases@), enabled)
                    == Ok::<(DictionaryEntryView, TextRulesDocumentView), Seq<char>>(
                    (entry@, final(self)@),
                ),
                Err(e) => spec_save_dictionary(old(self)@, id, term@, views(aliases@), enabled)
                    == Err::<(DictionaryEntryView, TextRulesDocumentView), Seq<char>>(e.spec_message())
                    && final(self)@ == old(self)@,
            },
    {
        let term = match normalize_required(term.as_str(), "dictionary term") {
            Ok(term) => term,
            Err(e) => {
                proof {
                    reveal_strlit("dictionary term");
                    reveal_strlit(" cannot be blank");
                    reveal_strlit("dictionary term cannot be blank");
                    assert("dictionary term"@ + " cannot be blank"@ =~= "dictionary term cannot be blank"@);
                }
                return Err(e);
            },
        };
        let aliases = remove_equal(normalize_list(&aliases), term.as_str());
        let mut next = self.document.duplicate();
        let entry = match id {
            Some(i) => {
                let found = find_entry(&next.dictionary, i);
                proof {
                    lemma_entry_index_bounds(next@.dictionary, i, 0);
                }
                match found {
                    None => {
                        let mut message = String::from_str("dictionary entry ");
                        message.append(u64_to_decimal(i).as_str());
                        message.append(" does not exist");
                        return Err(TextRulesError::new(message));
                    },
                    Some(j) => {
                        let updated = DictionaryEntry {
                            id: next.dictionary[j].id,
                            term,
                            aliases,
                            enabled: match enabled {
                                Some(v) => v,
                                None => next.dictionary[j].enabled,
                            },
                        };
                        let result = updated.duplicate();
                        let ghost before = next.dictionary@;
                        next.dictionary.set(j, updated);
                        proof {
                            assert(entry_views(next.dictionary@) =~= entry_views(before).update(
                                j as int,
                                result@,
                            ));
                        }
                        result
                    },
                }
            },
            None => {
                let new_id = next.allocate_id();
                let created = DictionaryEntry {
                    id: new_id,
                    term,
                    aliases,
                    enabled: match enabled {
                        Some(v) => v,
                        None => true,
                    },
                };
                let result = created.duplicate();
                let ghost before = next.dictionary@;
                next.dictionary.push(created);
                proof {
                    assert(entry_views(next.dictionary@) =~= entry_views(before).push(result@));
                }
                result
            },
        };
        match next.normalize() {
            Ok(()) => {
                self.document = next;
                Ok(entry)
            },
            Err(e) => Err(e),
        }
    }

    /// Deletes the dictionary entries with identifier `id`; `true` when one
    /// was removed.
    pub fn delete_dictionary(&mut self, id: u64) -> (result: Result<bool, TextRulesError>)
        ensures
            ({
                let edited = TextRulesDocumentView {
                    dictionary: entries_without(old(self)@.dictionary, id),
                    ..old(self)@
                };
                match result {
                    Ok(removed) => removed == (edited.dictionary.len() != old(self)@.dictionary.len())
                        && spec_normalize(edited) == Ok::<TextRulesDocumentView, Seq<char>>(final(self)@),
                    Err(e) => spec_normalize(edited) == Err::<TextRulesDocumentView, Seq<char>>(
                        e.spec_message(),
                    ) && final(self)@ == old(self)@,
                }
            }),
    {
        let mut next = self.document.duplicate();
        let before = next.dictionary.len();
        let mut kept: Vec<DictionaryEntry> = Vec::new();
        let mut i: usize = 0;
        let ghost all = next@.dictionary;
        proof {
            assert(all.subrange(0, 0) =~= Seq::<DictionaryEntryView>::empty());
            assert(entry_views(kept@) =~= Seq::<DictionaryEntryView>::empty());
        }
        while i < before
            invariant
                before == next.dictionary@.len(),
                all == entry_views(next.dictionary@),
                i <= before,
                entry_views(kept@) == entries_without(all.subrange(0, i as int), id),
            decreases before - i,
        {
            proof {
                assert(all.subrange(0, i + 1).drop_last() =~= all.subrange(0, i as int));
            }
            if next.dictionary[i].id != id {
                let ghost prior = entry_views(kept@);
                let entry = next.dictionary[i].duplicate();
                kept.push(entry);
                proof {
                    assert(entry_views(kept@) =~= prior.push(entry@));
                }
            }
            i = i + 1;
        }
        proof {
            assert(all.subrange(0, before as int) =~= all);
        }
        let removed = kept.len() != before;
        next.dictionary = kept;
        proof {
            assert(next@ =~= TextRulesDocumentView { dictionary: entries_without(old(self)@.dictionary, id), ..old(self)@ });
        }
        match next.normalize() {
            Ok(()) => {
                self.document = next;
                Ok(removed)
            },
            Err(e) => Err(e),
        }
    }

    /// Creates (`id` is `None`) or updates a replacement rule.
    pub fn save_replacement(
        &mut self,
        id: Option<u64>,
        from: String,
        to: String,
        enabled: Option<bool>,
        whole_word: Option<bool>,
    ) -> (result: Result<ReplacementRule, TextRulesError>)
        ensures
            match result {
                Ok(rule) => spec_save_replacement(old(self)@, id, from@, to@, enabled, whole_word)
                    == Ok::<(ReplacementRuleView, TextRulesDocumentView), Seq<char>>(
                    (rule@, final(self)@),
                ),
                Err(e) => spec_save_replacement(old(self)@, id, from@, to@, enabled, whole_word)
                    == Err::<(ReplacementRuleView, TextRulesDocumentView), Seq<char>>(e.spec_message())
                    && final(self)@ == old(self)@,
            },
    {
        proof {
            reveal_strlit("replacement source");
            reveal_strlit("replacement destination");
            reveal_strlit(" cannot be blank");
            reveal_strlit("replacement source cannot be blank");
            reveal_strlit("replacement destination cannot be blank");
            assert("replacement source"@ + " cannot be blank"@ =~= "replacement source cannot be blank"@);
            assert("replacement destination"@ + " cannot be blank"@
                =~= "replacement destination cannot be blank"@);
        }
        let from = match normalize_required(from.as_str(), "replacement source") {
            Ok(from) => from,
            Err(e) => {
                return Err(e);
            },
        };
        let to = match normalize_required(to.as_str(), "replacement destination") {
            Ok(to) => to,
            Err(e) => {
                return Err(e);
            },
        };
        let mut next = self.document.duplicate();
        let rule = match id {
            Some(i) => {
                let found = find_rule(&next.replacements, i);
                proof {
                    lemma_rule_index_bounds(next@.replacements, i, 0);
                }
                match found {
                    None => {
                        let mut message = String::from_str("replacement rule ");
                        message.append(u64_to_decimal(i).as_str());
                        message.append(" does not exist");
                        return Err(TextRulesError::new(message));
                    },
                    Some(j) => {
                        let updated = ReplacementRule {
                            id: next.replacements[j].id,
                            from,
                            to,
                            enabled: match enabled {
                                Some(v) => v,
                                None => next.replacements[j].enabled,
                            },
                            whole_word: match whole_word {
                                Some(v) => v,
                                None => next.replacements[j].whole_word,
                            },
                        };
                        let result = updated.duplicate();
                        let ghost before = next.replacements@;
                        next.replacements.set(j, updated);
                        proof {
                            assert(rule_views(next.replacements@) =~= rule_views(before).update(
                                j as int,
                                result@,
                            ));
                        }
                        result
                    },
                }
            },
            None => {
                let new_id = next.allocate_id();
                let created = ReplacementRule {
                    id: new_id,
                    from,
                    to,
                    enabled: match enabled {
                        Some(v) => v,
                        None => true,
                    },
                    whole_word: match whole_word {
                        Some(v) => v,
                        None => true,
                    },
                };
                let result = created.duplicate();
                let ghost before = next.replacements@;
                next.replacements.push(created);
                proof {
                    assert(rule_views(next.replacements@) =~= rule_views(before).push(result@));
                }
                result
            },
        };
        match next.normalize() {
            Ok(()) => {
                self.document = next;
                Ok(rule)
            },
            Err(e) => Err(e),
        }
    }

    /// Deletes the replacement rules with identifier `id`; `true` when one was
    /// removed.
    pub fn delete_replacement(&mut self, id: u64) -> (result: Result<bool, TextRulesError>)
        ensures
            ({
                let edited = TextRulesDocumentView {
                    replacements: rules_without(old(self)@.replacements, id),
                    ..old(self)@
                };
                match result {
                    Ok(removed) => removed == (edited.replacements.len() != old(self)@.replacements.len())
                        && spec_normalize(edited) == Ok::<TextRulesDocumentView, Seq<char>>(final(self)@),
                    Err(e) => spec_normalize(edited) == Err::<TextRulesDocumentView, Seq<char>>(
                        e.spec_message(),
                    ) && final(self)@ == old(self)@,
                }
            }),
    {
        let mut next = self.document.duplicate();
        let before = next.replacements.len();
        let mut kept: Vec<ReplacementRule> = Vec::new();
        let mut i: usize = 0;
        let ghost all = next@.replacements;
        proof {
            assert(all.subrange(0, 0) =~= Seq::<ReplacementRuleView>::empty());
            assert(rule_views(kept@) =~= Seq::<ReplacementRuleView>::empty());
        }
        while i < before
            invariant
                before == next.replacements@.len(),
                all == rule_views(next.replacements@),
                i <= before,
                rule_views(kept@) == rules_without(all.subrange(0, i as int), id),
            decreases before - i,
        {
            proof {
                assert(all.subrange(0, i + 1).drop_last() =~= all.subrange(0, i as int));
            }
            if next.replacements[i].id != id {
                let ghost prior = rule_views(kept@);
                let rule = next.replacements[i].duplicate();
                kept.push(rule);
                proof {
                    assert(rule_views(kept@) =~= prior.push(rule@));
                }
            }
            i = i + 1;
        }
        proof {
            assert(all.subrange(0, before as int) =~= all);
        }
        let removed = kept.len() != before;
        next.replacements = kept;
        proof {
            assert(next@ =~= TextRulesDocumentView { replacements: rules_without(old(self)@.replacements, id), ..old(self)@ });
        }
        match next.normalize() {
            Ok(()) => {
                self.document = next;
                Ok(removed)
            },
            Err(e) => Err(e),
        }
    }

    /// The text after the enabled dictionary entries and replacement rules.
    /// Where a replacement is undefined (an occurrence found in lowercase form
    /// that does not fall on character boundaries of the text), the text is
    /// returned unchanged.
    pub fn apply(&self, text: &str) -> (output: String)
        ensures
            output@ == match spec_apply_document(text@, self@) {
                Some(s) => s,
                None => text@,
            },
    {
        match apply_document_checked(text, &self.document) {
            Some(output) => output,
            None => String::from_str(text),
        }
    }
}

/// `text` after the rules of `service`, or unchanged when there is none.
pub fn apply_text_rules(service: Option<&TextRulesService>, text: &str) -> (output: String)
    ensures
        output@ == match service {
            Some(s) => match spec_apply_document(text@, s@) {
                Some(r) => r,
                None => text@,
            },
            None => text@,
        },
{
    match service {
        Some(service) => service.apply(text),
        None => String::from_str(text),
    }
}

proof fn lemma_disabled_entries(text: Option<Seq<char>>, entries: Seq<DictionaryEntryView>)
    requires
        forall|i: int| 0 <= i < entries.len() ==> !(#[trigger] entries[i]).enabled,
    ensures
        apply_entries(text, entries) == text,
    decreases entries.len(),
{
    if entries.len() > 0 {
        assert(!entries[0].enabled);
        assert forall|i: int| 0 <= i < entries.drop_first().len() implies !(
        #[trigger] entries.drop_first()[i]).enabled by {
            assert(entries.drop_first()[i] == entries[i + 1]);
        }
        lemma_disabled_entries(text, entries.drop_first());
    }
}

proof fn lemma_disabled_rules(text: Option<Seq<char>>, rules: Seq<ReplacementRuleView>)
    requires
        forall|i: int| 0 <= i < rules.len() ==> !(#[trigger] rules[i]).enabled,
    ensures
        apply_replacements(text, rules) == text,
    decreases rules.len(),
{
    if rules.len() > 0 {
        assert(!rules[0].enabled);
        assert forall|i: int| 0 <= i < rules.drop_first().len() implies !(
        #[trigger] rules.drop_first()[i]).enabled by {
            assert(rules.drop_first()[i] == rules[i + 1]);
        }
        lemma_disabled_rules(text, rules.drop_first());
    }
}

/// Disabled entries and rules have no effect: a document whose entries and
/// rules are all disabled leaves every text unchanged.
pub proof fn law_disabled_rules_are_ignored(text: Seq<char>, document: TextRulesDocumentView)
    requires
        forall|i: int| 0 <= i < document.dictionary.len() ==> !(#[trigger] document.dictionary[i]).enabled,
        forall|i: int|
            0 <= i < document.replacements.len() ==> !(#[trigger] document.replacements[i]).enabled,
    ensures
        spec_apply_document(text, document) == Some(text),
{
    lemma_disabled_entries(Some(text), document.dictionary);
    lemma_disabled_rules(Some(text), document.replacements);
}

/// A needle that does not occur in the searched form of the text leaves the
/// text unchanged.
pub proof fn law_absent_needle_keeps_text(
    input: Seq<char>,
    needle: Seq<char>,
    replacement: Seq<char>,
    whole_word: bool,
    case_sensitive: bool,
)
    requires
        needle.len() > 0,
        input.len() > 0,
        search_texts(input, needle, case_sensitive).1.len() > 0,
        find_from(
            search_texts(input, needle, case_sensitive).0,
            search_texts(input, needle, case_sensitive).1,
            0,
        ) is None,
    ensures
        spec_replace_literal(input, needle, replacement, whole_word, case_sensitive) == Some(input),
{
    assert(input.subrange(0, input.len() as int) =~= input);
}

proof fn lemma_max_entry_id_bounds(entries: Seq<DictionaryEntryView>)
    ensures
        forall|i: int| 0 <= i < entries.len() ==> (#[trigger] entries[i]).id <= max_entry_id(entries),
    decreases entries.len(),
{
    if entries.len() > 0 {
        lemma_max_entry_id_bounds(entries.drop_last());
        assert forall|i: int| 0 <= i < entries.len() implies (#[trigger] entries[i]).id <= max_entry_id(
            entries,
        ) by {
            if i < entries.len() - 1 {
                assert(entries.drop_last()[i] == entries[i]);
            }
        }
    }
}

proof fn lemma_max_rule_id_bounds(rules: Seq<ReplacementRuleView>, start: u64)
    ensures
        start <= max_rule_id(rules, start),
        forall|i: int| 0 <= i < rules.len() ==> (#[trigger] rules[i]).id <= max_rule_id(rules, start),
    decreases rules.len(),
{
    if rules.len() > 0 {
        lemma_max_rule_id_bounds(rules.drop_last(), start);
        assert forall|i: int| 0 <= i < rules.len() implies (#[trigger] rules[i]).id <= max_rule_id(
            rules,
            start,
        ) by {
            if i < rules.len() - 1 {
                assert(rules.drop_last()[i] == rules[i]);
            }
        }
    }
}

/// After normalization the next identifier to hand out is above every
/// identifier in use (unless identifiers reached the largest value), so
/// entries and rules created afterwards get fresh identifiers.
pub proof fn law_next_id_is_fresh(document: TextRulesDocumentView)
    requires
        spec_normalize(document) is Ok,
        max_rule_id(document.replacements, max_entry_id(document.dictionary)) < u64::MAX,
    ensures
        ({
            let normalized = spec_normalize(document)->Ok_0;
            &&& normalized.next_id >= 1
            &&& forall|i: int|
                0 <= i < normalized.dictionary.len() ==> (#[trigger] normalized.dictionary[i]).id
                    < normalized.next_id
            &&& forall|i: int|
                0 <= i < normalized.replacements.len() ==> (#[trigger] normalized.replacements[i]).id
                    < normalized.next_id
        }),
{
    lemma_max_entry_id_bounds(document.dictionary);
    lemma_max_rule_id_bounds(document.replacements, max_entry_id(document.dictionary));
    let normalized = spec_normalize(document)->Ok_0;
    assert forall|i: int| 0 <= i < normalized.dictionary.len() implies (
    #[trigger] normalized.dictionary[i]).id < normalized.next_id by {
        assert(normalized.dictionary[i].id == document.dictionary[i].id);
    }
    assert forall|i: int| 0 <= i < normalized.replacements.len() implies (
    #[trigger] normalized.replacements[i]).id < normalized.next_id by {
        assert(normalized.replacements[i].id == document.replacements[i].id);
    }
}

/// Every element of `values` is trimmed and non-empty, and none repeats.
pub open spec fn clean_list(values: Seq<Seq<char>>) -> bool {
    &&& forall|i: int|
        0 <= i < values.len() ==> trim(#[trigger] values[i]) == values[i] && values[i].len() > 0
    &&& forall|i: int, j: int| 0 <= i < j < values.len() ==> values[i] != values[j]
}

proof fn lemma_blank_after_trim(s: Seq<char>)
    ensures
        is_blank(trim(s)) == is_blank(s),
{
    lemma_trim_empty_iff_blank(s);
    lemma_trim_empty_iff_blank(trim(s));
    lemma_trim_idempotent(s);
}

proof fn lemma_normalize_list_clean(values: Seq<Seq<char>>)
    ensures
        clean_list(normalize_list_spec(values)),
    decreases values.len(),
{
    if values.len() > 0 {
        lemma_normalize_list_clean(values.drop_last());
        lemma_trim_idempotent(values.last());
        let previous = normalize_list_spec(values.drop_last());
        let value = trim(values.last());
        if !(value.len() == 0 || previous.contains(value)) {
            let next = previous.push(value);
            assert forall|i: int, j: int| 0 <= i < j < next.len() implies next[i] != next[j] by {
                if j == previous.len() && next[i] == next[j] {
                    assert(previous[i] == value);
                    assert(previous.contains(value));
                }
            }
        }
    }
}

proof fn lemma_normalize_list_fixed(values: Seq<Seq<char>>)
    requires
        clean_list(values),
    ensures
        normalize_list_spec(values) == values,
    decreases values.len(),
{
    if values.len() > 0 {
        let init = values.drop_last();
        assert forall|i: int, j: int| 0 <= i < j < init.len() implies init[i] != init[j] by {
            assert(init[i] == values[i] && init[j] == values[j]);
        }
        assert forall|i: int| 0 <= i < init.len() implies trim(#[trigger] init[i]) == init[i]
            && init[i].len() > 0 by {
            assert(init[i] == values[i]);
        }
        lemma_normalize_list_fixed(init);
        let last = values.last();
        if init.contains(last) {
            let k = choose|k: int| 0 <= k < init.len() && init[k] == last;
            assert(values[k] == values[values.len() - 1]);
        }
        assert(trim(values[values.len() - 1]) == values[values.len() - 1]);
        assert(init.push(last) =~= values);
    }
}

proof fn lemma_without_clean(values: Seq<Seq<char>>, x: Seq<char>)
    requires
        clean_list(values),
    ensures
        clean_list(without(values, x)),
        !without(values, x).contains(x),
        forall|k: int| 0 <= k < without(values, x).len() ==> values.contains(
            #[trigger] without(values, x)[k],
        ),
    decreases values.len(),
{
    if values.len() > 0 {
        let init = values.drop_last();
        assert forall|i: int, j: int| 0 <= i < j < init.len() implies init[i] != init[j] by {
            assert(init[i] == values[i] && init[j] == values[j]);
        }
        assert forall|i: int| 0 <= i < init.len() implies trim(#[trigger] init[i]) == init[i]
            && init[i].len() > 0 by {
            assert(init[i] == values[i]);
        }
        lemma_without_clean(init, x);
        let previous = without(init, x);
        let last = values.last();
        assert forall|k: int| 0 <= k < previous.len() implies values.contains(#[trigger] previous[k]) by {
            let m = choose|m: int| 0 <= m < init.len() && init[m] == previous[k];
            assert(values[m] == previous[k]);
        }
        if last != x {
            let next = previous.push(last);
            assert forall|i: int, j: int| 0 <= i < j < next.len() implies next[i] != next[j] by {
                if j == previous.len() && next[i] == next[j] {
                    let m = choose|m: int| 0 <= m < init.len() && init[m] == previous[i];
                    assert(values[m] == values[values.len() - 1]);
                }
            }
            assert forall|k: int| 0 <= k < next.len() implies values.contains(#[trigger] next[k]) by {
                if k == previous.len() {
                    assert(values[values.len() - 1] == next[k]);
                } else {
                    assert(next[k] == previous[k]);
                }
            }
            assert forall|i: int| 0 <= i < next.len() implies trim(#[trigger] next[i]) == next[i]
                && next[i].len() > 0 by {
                if i == previous.len() {
                    assert(next[i] == values[values.len() - 1]);
                } else {
                    assert(next[i] == previous[i]);
                }
            }
            if next.contains(x) {
                let k = choose|k: int| 0 <= k < next.len() && next[k] == x;
                if k < previous.len() {
                    assert(previous[k] == x);
                    assert(previous.contains(x));
                }
            }
        }
    }
}

proof fn lemma_without_absent(values: Seq<Seq<char>>, x: Seq<char>)
    requires
        !values.contains(x),
    ensures
        without(values, x) == values,
    decreases values.len(),
{
    if values.len() > 0 {
        let init = values.drop_last();
        if init.contains(x) {
            let k = choose|k: int| 0 <= k < init.len() && init[k] == x;
            assert(values[k] == x);
        }
        lemma_without_absent(init, x);
        assert(values[values.len() - 1] != x);
        assert(init.push(values.last()) =~= values);
    }
}

proof fn lemma_normalize_entry_idempotent(e: DictionaryEntryView)
    ensures
        normalize_entry(normalize_entry(e)) == normalize_entry(e),
{
    let t = trim(e.term);
    lemma_trim_idempotent(e.term);
    let listed = normalize_list_spec(e.aliases);
    lemma_normalize_list_clean(e.aliases);
    let aliases = without(listed, t);
    lemma_without_clean(listed, t);
    lemma_normalize_list_fixed(aliases);
    lemma_without_absent(aliases, t);
}

proof fn lemma_normalize_rule_idempotent(r: ReplacementRuleView)
    ensures
        normalize_rule(normalize_rule(r)) == normalize_rule(r),
{
    lemma_trim_idempotent(r.from);
    lemma_trim_idempotent(r.to);
}

proof fn lemma_max_entry_id_normalized(entries: Seq<DictionaryEntryView>)
    ensures
        max_entry_id(entries.map_values(|e: DictionaryEntryView| normalize_entry(e))) == max_entry_id(
            entries,
        ),
    decreases entries.len(),
{
    if entries.len() > 0 {
        let normalized = entries.map_values(|e: DictionaryEntryView| normalize_entry(e));
        assert(normalized.drop_last() =~= entries.drop_last().map_values(
            |e: DictionaryEntryView| normalize_entry(e),
        ));
        lemma_max_entry_id_normalized(entries.drop_last());
    }
}

proof fn lemma_max_rule_id_normalized(rules: Seq<ReplacementRuleView>, start: u64)
    ensures
        max_rule_id(rules.map_values(|r: ReplacementRuleView| normalize_rule(r)), start) == max_rule_id(
            rules,
            start,
        ),
    decreases rules.len(),
{
    if rules.len() > 0 {
        let normalized = rules.map_values(|r: ReplacementRuleView| normalize_rule(r));
        assert(normalized.drop_last() =~= rules.drop_last().map_values(
            |r: ReplacementRuleView| normalize_rule(r),
        ));
        lemma_max_rule_id_normalized(rules.drop_last(), start);
    }
}

proof fn lemma_rules_problem_normalized(rules: Seq<ReplacementRuleView>)
    ensures
        rules_problem(rules.map_values(|r: ReplacementRuleView| normalize_rule(r))) == rules_problem(
            rules,
        ),
    decreases rules.len(),
{
    if rules.len() > 0 {
        let normalized = rules.map_values(|r: ReplacementRuleView| normalize_rule(r));
        assert(normalized.drop_first() =~= rules.drop_first().map_values(
            |r: ReplacementRuleView| normalize_rule(r),
        ));
        lemma_blank_after_trim(rules[0].from);
        lemma_blank_after_trim(rules[0].to);
        lemma_rules_problem_normalized(rules.drop_first());
    }
}

/// Rules that were normalized come back unchanged when they are normalized
/// again: a saved document reopens as the same rules.
pub proof fn law_saved_rules_reopen_unchanged(document: TextRulesDocumentView)
    requires
        spec_normalize(document) is Ok,
    ensures
        spec_normalize(spec_normalize(document)->Ok_0) == spec_normalize(document),
{
    let n = spec_normalize(document)->Ok_0;
    assert forall|i: int| 0 <= i < n.dictionary.len() implies !is_blank(
        #[trigger] n.dictionary[i].term,
    ) by {
        assert(n.dictionary[i] == normalize_entry(document.dictionary[i]));
        lemma_blank_after_trim(document.dictionary[i].term);
    }
    lemma_rules_problem_normalized(document.replacements);
    lemma_max_entry_id_normalized(document.dictionary);
    lemma_max_rule_id_normalized(document.replacements, max_entry_id(document.dictionary));
    lemma_max_entry_id_normalized(n.dictionary);
    lemma_max_rule_id_normalized(n.replacements, max_entry_id(n.dictionary));
    assert forall|i: int| 0 <= i < n.dictionary.len() implies #[trigger] normalize_entry(
        n.dictionary[i],
    ) == n.dictionary[i] by {
        lemma_normalize_entry_idempotent(document.dictionary[i]);
    }
    assert forall|i: int| 0 <= i < n.replacements.len() implies #[trigger] normalize_rule(
        n.replacements[i],
    ) == n.replacements[i] by {
        lemma_normalize_rule_idempotent(document.replacements[i]);
    }
    assert(n.dictionary.map_values(|e: DictionaryEntryView| normalize_entry(e)) =~= n.dictionary);
    assert(n.replacements.map_values(|r: ReplacementRuleView| normalize_rule(r)) =~= n.replacements);
}

proof fn lemma_entries_without_drops_id(entries: Seq<DictionaryEntryView>, id: u64)
    ensures
        forall|i: int|
            0 <= i < entries_without(entries, id).len() ==> #[trigger] entries_without(entries, id)[i].id
                != id,
    decreases entries.len(),
{
    if entries.len() > 0 {
        lemma_entries_without_drops_id(entries.drop_last(), id);
        let previous = entries_without(entries.drop_last(), id);
        if entries.last().id != id {
            assert forall|i: int| 0 <= i < previous.push(entries.last()).len() implies #[trigger] previous.push(
                entries.last(),
            )[i].id != id by {
                if i < previous.len() {
                    assert(previous.push(entries.last())[i] == previous[i]);
                }
            }
        }
    }
}

proof fn lemma_entries_without_absent(entries: Seq<DictionaryEntryView>, id: u64)
    requires
        forall|i: int| 0 <= i < entries.len() ==> #[trigger] entries[i].id != id,
    ensures
        entries_without(entries, id) == entries,
    decreases entries.len(),
{
    if entries.len() > 0 {
        assert forall|i: int| 0 <= i < entries.drop_last().len() implies #[trigger] entries.drop_last()[i].id
            != id by {
            assert(entries.drop_last()[i] == entries[i]);
        }
        lemma_entries_without_absent(entries.drop_last(), id);
        assert(entries.last().id != id);
        assert(entries.drop_last().push(entries.last()) =~= entries);
    }
}

/// Deleting a dictionary identifier a second time removes nothing and changes
/// nothing: once a delete of `id` succeeded, deleting `id` again reports that
/// no entry was removed and leaves the document as it was.
pub proof fn law_second_delete_removes_nothing(document: TextRulesDocumentView, id: u64)
    requires
        spec_normalize(
            TextRulesDocumentView { dictionary: entries_without(document.dictionary, id), ..document },
        ) is Ok,
    ensures
        ({
            let after = spec_normalize(
                TextRulesDocumentView { dictionary: entries_without(document.dictionary, id), ..document },
            )->Ok_0;
            let again = TextRulesDocumentView { dictionary: entries_without(after.dictionary, id), ..after };
            &&& again.dictionary.len() == after.dictionary.len()
            &&& spec_normalize(again) == Ok::<TextRulesDocumentView, Seq<char>>(after)
        }),
{
    let edited = TextRulesDocumentView { dictionary: entries_without(document.dictionary, id), ..document };
    let after = spec_normalize(edited)->Ok_0;
    lemma_entries_without_drops_id(document.dictionary, id);
    assert forall|i: int| 0 <= i < after.dictionary.len() implies #[trigger] after.dictionary[i].id
        != id by {
        assert(after.dictionary[i] == normalize_entry(edited.dictionary[i]));
    }
    lemma_entries_without_absent(after.dictionary, id);
    let again = TextRulesDocumentView { dictionary: entries_without(after.dictionary, id), ..after };
    assert(again =~= after);
    law_saved_rules_reopen_unchanged(edited);
}

proof fn lemma_insert_by_len_members(x: Seq<char>, sorted: Seq<Seq<char>>)
    ensures
        insert_by_len(x, sorted).contains(x),
        forall|y: Seq<char>| #[trigger] insert_by_len(x, sorted).contains(y) ==> (y == x || sorted.contains(y)),
        forall|y: Seq<char>| #[trigger] sorted.contains(y) ==> insert_by_len(x, sorted).contains(y),
    decreases sorted.len(),
{
    let r = insert_by_len(x, sorted);
    if sorted.len() == 0 {
        assert(r[0] == x);
    } else if sorted[0].len() < x.len() {
        assert(r == seq![x] + sorted);
        assert(r[0] == x);
        assert forall|y: Seq<char>| #[trigger] r.contains(y) implies (y == x || sorted.contains(y)) by {
            let k = choose|k: int| 0 <= k < r.len() && r[k] == y;
            if k > 0 {
                assert(sorted[k - 1] == y);
            }
        }
        assert forall|y: Seq<char>| #[trigger] sorted.contains(y) implies r.contains(y) by {
            let k = choose|k: int| 0 <= k < sorted.len() && sorted[k] == y;
            assert(r[k + 1] == y);
        }
    } else {
        let rest = sorted.drop_first();
        lemma_insert_by_len_members(x, rest);
        let inner = insert_by_len(x, rest);
        assert(r == seq![sorted[0]] + inner);
        let kx = choose|k: int| 0 <= k < inner.len() && inner[k] == x;
        assert(r[kx + 1] == x);
        assert forall|y: Seq<char>| #[trigger] r.contains(y) implies (y == x || sorted.contains(y)) by {
            let k = choose|k: int| 0 <= k < r.len() && r[k] == y;
            if k == 0 {
                assert(sorted[0] == y);
            } else {
                assert(inner[k - 1] == y);
                assert(inner.contains(y));
                if y != x {
                    let m = choose|m: int| 0 <= m < rest.len() && rest[m] == y;
                    assert(sorted[m + 1] == y);
                }
            }
        }
        assert forall|y: Seq<char>| #[trigger] sorted.contains(y) implies r.contains(y) by {
            let k = choose|k: int| 0 <= k < sorted.len() && sorted[k] == y;
            if k == 0 {
                assert(r[0] == y);
            } else {
                assert(rest[k - 1] == y);
                assert(rest.contains(y));
                let m = choose|m: int| 0 <= m < inner.len() && inner[m] == y;
                assert(r[m + 1] == y);
            }
        }
    }
}

proof fn lemma_sort_by_len_members(s: Seq<Seq<char>>)
    ensures
        forall|y: Seq<char>| #[trigger] sort_by_len_desc(s).contains(y) <==> s.contains(y),
    decreases s.len(),
{
    if s.len() > 0 {
        let init = s.drop_last();
        lemma_sort_by_len_members(init);
        lemma_insert_by_len_members(s.last(), sort_by_len_desc(init));
        assert(s[s.len() - 1] == s.last());
        assert forall|y: Seq<char>| #[trigger] sort_by_len_desc(s).contains(y) <==> s.contains(y) by {
            if s.contains(y) && y != s.last() {
                let k = choose|k: int| 0 <= k < s.len() && s[k] == y;
                assert(init[k] == y);
                assert(init.contains(y));
                assert(sort_by_len_desc(init).contains(y));
            }
            if sort_by_len_desc(init).contains(y) {
                assert(init.contains(y));
                let k = choose|k: int| 0 <= k < init.len() && init[k] == y;
                assert(s[k] == y);
            }
        }
    }
}

proof fn lemma_dedup_members(s: Seq<Seq<char>>)
    ensures
        forall|y: Seq<char>| #[trigger] dedup(s).contains(y) <==> s.contains(y),
    decreases s.len(),
{
    if s.len() > 1 {
        let init = s.drop_last();
        lemma_dedup_members(init);
        assert(s[s.len() - 1] == s.last());
        assert forall|y: Seq<char>| #[trigger] dedup(s).contains(y) <==> s.contains(y) by {
            if s.contains(y) {
                let k = choose|k: int| 0 <= k < s.len() && s[k] == y;
                if k < s.len() - 1 {
                    assert(init[k] == y);
                } else {
                    assert(init[s.len() - 2] == s[s.len() - 2]);
                }
                if y != s.last() || s.last() == s[s.len() - 2] {
                    if k == s.len() - 1 {
                        assert(init[s.len() - 2] == y);
                    }
                    assert(init.contains(y));
                }
                if s.last() != s[s.len() - 2] {
                    let d = dedup(init);
                    assert(d.push(s.last())[d.len() as int] == s.last());
                    if init.contains(y) {
                        assert(dedup(init).contains(y));
                        let m = choose|m: int| 0 <= m < d.len() && d[m] == y;
                        assert(d.push(s.last())[m] == y);
                    }
                }
            }
            if dedup(s).contains(y) {
                if s.last() == s[s.len() - 2] {
                    assert(dedup(init).contains(y));
                    assert(init.contains(y));
                    let k = choose|k: int| 0 <= k < init.len() && init[k] == y;
                    assert(s[k] == y);
                } else {
                    let d = dedup(init);
                    let m = choose|m: int| 0 <= m < d.push(s.last()).len() && d.push(s.last())[m] == y;
                    if m < d.len() {
                        assert(d[m] == y);
                        assert(d.contains(y));
                        assert(init.contains(y));
                        let k = choose|k: int| 0 <= k < init.len() && init[k] == y;
                        assert(s[k] == y);
                    } else {
                        assert(s[s.len() - 1] == y);
                    }
                }
            }
        }
    }
}

/// A dictionary entry replaces exactly its term and its aliases: every string
/// it rewrites to the term is the term or one of its aliases, and the term
/// itself (in whatever case it occurs) and each alias are among them.
pub proof fn law_entry_replaces_its_term_and_aliases(entry: DictionaryEntryView)
    ensures
        entry_sources(entry).contains(entry.term),
        forall|y: Seq<char>| #[trigger] entry_sources(entry).contains(y) <==> (y == entry.term
            || entry.aliases.contains(y)),
{
    let all = entry.aliases.push(entry.term);
    lemma_sort_by_len_members(all);
    lemma_dedup_members(sort_by_len_desc(all));
    assert(all[entry.aliases.len() as int] == entry.term);
    assert forall|y: Seq<char>| #[trigger] all.contains(y) <==> (y == entry.term
        || entry.aliases.contains(y)) by {
        if all.contains(y) && y != entry.term {
            let k = choose|k: int| 0 <= k < all.len() && all[k] == y;
            assert(entry.aliases[k] == y);
        }
        if entry.aliases.contains(y) {
            let k = choose|k: int| 0 <= k < entry.aliases.len() && entry.aliases[k] == y;
            assert(all[k] == y);
        }
    }
}

/// Some element of `values` trims to `y`.
pub open spec fn trims_to(values: Seq<Seq<char>>, y: Seq<char>) -> bool {
    exists|k: int| 0 <= k < values.len() && trim(#[trigger] values[k]) == y
}

proof fn lemma_normalize_list_members(values: Seq<Seq<char>>)
    ensures
        forall|y: Seq<char>| #[trigger] normalize_list_spec(values).contains(y) <==> (y.len() > 0
            && trims_to(values, y)),
    decreases values.len(),
{
    if values.len() > 0 {
        let init = values.drop_last();
        lemma_normalize_list_members(init);
        let previous = normalize_list_spec(init);
        let value = trim(values.last());
        assert(values[values.len() - 1] == values.last());
        assert forall|y: Seq<char>| #[trigger] normalize_list_spec(values).contains(y) <==> (y.len()
            > 0 && trims_to(values, y)) by {
            if previous.contains(y) {
                assert(trims_to(init, y));
                let k = choose|k: int| 0 <= k < init.len() && trim(#[trigger] init[k]) == y;
                assert(values[k] == init[k]);
            }
            if y.len() > 0 && trims_to(values, y) {
                let k = choose|k: int| 0 <= k < values.len() && trim(#[trigger] values[k]) == y;
                if k < init.len() {
                    assert(init[k] == values[k]);
                    assert(trims_to(init, y));
                    assert(previous.contains(y));
                }
            }
            if !(value.len() == 0 || previous.contains(value)) {
                let next = previous.push(value);
                assert(next[previous.len() as int] == value);
                if previous.contains(y) {
                    let m = choose|m: int| 0 <= m < previous.len() && previous[m] == y;
                    assert(next[m] == y);
                }
                if next.contains(y) {
                    let m = choose|m: int| 0 <= m < next.len() && next[m] == y;
                    if m < previous.len() {
                        assert(previous[m] == y);
                        assert(previous.contains(y));
                    } else {
                        assert(trim(values[values.len() - 1]) == y);
                    }
                }
            }
        }
    }
}

proof fn lemma_without_members(values: Seq<Seq<char>>, x: Seq<char>)
    ensures
        forall|y: Seq<char>| #[trigger] without(values, x).contains(y) <==> (values.contains(y) && y
            != x),
    decreases values.len(),
{
    if values.len() > 0 {
        let init = values.drop_last();
        lemma_without_members(init, x);
        let previous = without(init, x);
        assert(values[values.len() - 1] == values.last());
        assert forall|y: Seq<char>| #[trigger] without(values, x).contains(y) <==> (values.contains(y)
            && y != x) by {
            if previous.contains(y) {
                assert(init.contains(y));
                let k = choose|k: int| 0 <= k < init.len() && init[k] == y;
                assert(values[k] == y);
            }
            if values.contains(y) && y != x {
                let k = choose|k: int| 0 <= k < values.len() && values[k] == y;
                if k < init.len() {
                    assert(init[k] == y);
                    assert(init.contains(y));
                    assert(previous.contains(y));
                }
            }
            if values.last() != x {
                let next = previous.push(values.last());
                assert(next[previous.len() as int] == values.last());
                if previous.contains(y) {
                    let m = choose|m: int| 0 <= m < previous.len() && previous[m] == y;
                    assert(next[m] == y);
                }
                if next.contains(y) {
                    let m = choose|m: int| 0 <= m < next.len() && next[m] == y;
                    if m < previous.len() {
                        assert(previous[m] == y);
                        assert(previous.contains(y));
                    }
                }
            }
        }
    }
}

/// The aliases an entry is saved with, from the aliases given and its term.
proof fn lemma_saved_aliases(term: Seq<char>, aliases: Seq<Seq<char>>)
    ensures
        ({
            let a = without(normalize_list_spec(aliases), trim(term));
            &&& clean_list(a)
            &&& !a.contains(trim(term))
            &&& forall|y: Seq<char>| #[trigger] a.contains(y) <==> (y.len() > 0 && y != trim(term)
                && trims_to(aliases, y))
            &&& normalize_entry(
                DictionaryEntryView { id: 0, term, aliases, enabled: true },
            ).aliases == a
        }),
{
    let t = trim(term);
    lemma_normalize_list_clean(aliases);
    lemma_without_clean(normalize_list_spec(aliases), t);
    lemma_normalize_list_members(aliases);
    lemma_without_members(normalize_list_spec(aliases), t);
}

proof fn lemma_saved_entry_is_normalized(entry: DictionaryEntryView, term: Seq<char>, aliases: Seq<Seq<char>>)
    requires
        entry.term == trim(term),
        entry.aliases == without(normalize_list_spec(aliases), trim(term)),
    ensures
        normalize_entry(entry) == entry,
{
    lemma_trim_idempotent(term);
    lemma_saved_aliases(term, aliases);
    lemma_normalize_list_fixed(entry.aliases);
    lemma_without_absent(entry.aliases, entry.term);
}

/// A saved dictionary entry holds the given term, trimmed, and exactly the
/// given aliases that are not blank and differ from the term, trimmed and
/// each once, whatever the entry held before; an update keeps the entry's
/// identifier; and the entry is stored in the document as saved.
pub proof fn law_saved_entry_holds_the_given_aliases(
    d: TextRulesDocumentView,
    id: Option<u64>,
    term: Seq<char>,
    aliases: Seq<Seq<char>>,
    enabled: Option<bool>,
)
    requires
        spec_save_dictionary(d, id, term, aliases, enabled) is Ok,
    ensures
        ({
            let (entry, n) = spec_save_dictionary(d, id, term, aliases, enabled)->Ok_0;
            &&& entry.term == trim(term)
            &&& forall|y: Seq<char>| #[trigger] entry.aliases.contains(y) <==> (y.len() > 0 && y
                != trim(term) && trims_to(aliases, y))
            &&& clean_list(entry.aliases)
            &&& (id matches Some(i) ==> entry.id == i)
            &&& (enabled matches Some(b) ==> entry.enabled == b)
            &&& (id is None && enabled is None ==> entry.enabled)
            &&& exists|j: int| 0 <= j < n.dictionary.len() && n.dictionary[j] == entry
        }),
{
    lemma_saved_aliases(term, aliases);
    let (entry, n) = spec_save_dictionary(d, id, term, aliases, enabled)->Ok_0;
    lemma_saved_entry_is_normalized(entry, term, aliases);
    match id {
        Some(i) => {
            lemma_entry_index_bounds(d.dictionary, i, 0);
            let j = entry_index_from(d.dictionary, i, 0)->0;
            assert(n.dictionary[j] == normalize_entry(d.dictionary.update(j, entry)[j]));
        },
        None => {
            let j = d.dictionary.len() as int;
            assert(n.dictionary[j] == normalize_entry(d.dictionary.push(entry)[j]));
        },
    }
}

proof fn lemma_rule_index_first(rules: Seq<ReplacementRuleView>, id: u64, from: int, k: int)
    requires
        0 <= from <= k < rules.len(),
        rules[k].id == id,
        forall|m: int| from <= m < k ==> #[trigger] rules[m].id != id,
    ensures
        rule_index_from(rules, id, from) == Some(k),
    decreases k - from,
{
    if from < k {
        lemma_rule_index_first(rules, id, from + 1, k);
    }
}

/// Updating the replacement rule `i` (whose first occurrence is at `k`) saves
/// it with the given source and destination, trimmed, and with each given
/// flag; a flag that is not given keeps the rule's previous value. The saved
/// rule is stored in its place.
pub proof fn law_updated_rule_takes_the_given_flags(
    d: TextRulesDocumentView,
    i: u64,
    from: Seq<char>,
    to: Seq<char>,
    enabled: Option<bool>,
    whole_word: Option<bool>,
    k: int,
)
    requires
        spec_save_replacement(d, Some(i), from, to, enabled, whole_word) is Ok,
        0 <= k < d.replacements.len(),
        d.replacements[k].id == i,
        forall|m: int| 0 <= m < k ==> #[trigger] d.replacements[m].id != i,
    ensures
        ({
            let (rule, n) = spec_save_replacement(d, Some(i), from, to, enabled, whole_word)->Ok_0;
            &&& rule.id == i
            &&& rule.from == trim(from)
            &&& rule.to == trim(to)
            &&& (enabled matches Some(b) ==> rule.enabled == b)
            &&& (enabled is None ==> rule.enabled == d.replacements[k].enabled)
            &&& (whole_word matches Some(b) ==> rule.whole_word == b)
            &&& (whole_word is None ==> rule.whole_word == d.replacements[k].whole_word)
            &&& n.replacements.len() == d.replacements.len()
            &&& n.replacements[k] == rule
        }),
{
    lemma_rule_index_first(d.replacements, i, 0, k);
    lemma_trim_idempotent(from);
    lemma_trim_idempotent(to);
    let (rule, n) = spec_save_replacement(d, Some(i), from, to, enabled, whole_word)->Ok_0;
    assert(n.replacements[k] == normalize_rule(d.replacements.update(k, rule)[k]));
}

/// A new replacement rule is saved with the given flags, both on when not
/// given, and stored after the existing rules.
pub proof fn law_new_rule_takes_the_given_flags(
    d: TextRulesDocumentView,
    from: Seq<char>,
    to: Seq<char>,
    enabled: Option<bool>,
    whole_word: Option<bool>,
)
    requires
        spec_save_replacement(d, None, from, to, enabled, whole_word) is Ok,
    ensures
        ({
            let (rule, n) = spec_save_replacement(d, None, from, to, enabled, whole_word)->Ok_0;
            &&& rule.from == trim(from)
            &&& rule.to == trim(to)
            &&& (enabled matches Some(b) ==> rule.enabled == b)
            &&& (enabled is None ==> rule.enabled)
            &&& (whole_word matches Some(b) ==> rule.whole_word == b)
            &&& (whole_word is None ==> rule.whole_word)
            &&& n.replacements.len() == d.replacements.len() + 1
            &&& n.replacements[d.replacements.len() as int] == rule
        }),
{
    lemma_trim_idempotent(from);
    lemma_trim_idempotent(to);
    let (rule, n) = spec_save_replacement(d, None, from, to, enabled, whole_word)->Ok_0;
    let j = d.replacements.len() as int;
    assert(n.replacements[j] == normalize_rule(d.replacements.push(rule)[j]));
}

proof fn lemma_entry_index_first(entries: Seq<DictionaryEntryView>, id: u64, from: int, k: int)
    requires
        0 <= from <= k < entries.len(),
        entries[k].id == id,
        forall|m: int| from <= m < k ==> #[trigger] entries[m].id != id,
    ensures
        entry_index_from(entries, id, from) == Some(k),
    decreases k - from,
{
    if from < k {
        lemma_entry_index_first(entries, id, from + 1, k);
    }
}

/// Updating the dictionary entry `i` (whose first occurrence is at `k`)
/// without an `enabled` flag keeps its previous flag, and the entry stays in
/// its place.
pub proof fn law_updated_entry_keeps_an_unset_flag(
    d: TextRulesDocumentView,
    i: u64,
    term: Seq<char>,
    aliases: Seq<Seq<char>>,
    k: int,
)
    requires
        spec_save_dictionary(d, Some(i), term, aliases, None) is Ok,
        0 <= k < d.dictionary.len(),
        d.dictionary[k].id == i,
        forall|m: int| 0 <= m < k ==> #[trigger] d.dictionary[m].id != i,
    ensures
        ({
            let (entry, n) = spec_save_dictionary(d, Some(i), term, aliases, None)->Ok_0;
            &&& entry.enabled == d.dictionary[k].enabled
            &&& n.dictionary.len() == d.dictionary.len()
            &&& n.dictionary[k] == entry
        }),
{
    lemma_entry_index_first(d.dictionary, i, 0, k);
    let (entry, n) = spec_save_dictionary(d, Some(i), term, aliases, None)->Ok_0;
    lemma_saved_entry_is_normalized(entry, term, aliases);
    assert(n.dictionary[k] == normalize_entry(d.dictionary.update(k, entry)[k]));
}

} // verus!
