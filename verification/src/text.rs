//! Character-level text primitives shared by the validators and normalizers.
use vstd::prelude::*;

verus! {

broadcast use vstd::string::group_string_axioms;

/// Unicode `White_Space` property, the set `char::is_whitespace` tests.
pub open spec fn is_whitespace(c: char) -> bool {
    let v = c as u32;
    (0x09 <= v && v <= 0x0D) || v == 0x20 || v == 0x85 || v == 0xA0 || v == 0x1680 || (0x2000 <= v
        && v <= 0x200A) || v == 0x2028 || v == 0x2029 || v == 0x202F || v == 0x205F || v == 0x3000
}

/// Unicode general category `Cc`, the set `char::is_control` tests.
pub open spec fn is_control(c: char) -> bool {
    let v = c as u32;
    v <= 0x1F || (0x7F <= v && v <= 0x9F)
}

/// ASCII lowercase mapping of one character; other characters are unchanged.
pub open spec fn ascii_lower(c: char) -> char {
    if 'A' <= c && c <= 'Z' {
        ((c as u32) + 32) as char
    } else {
        c
    }
}

pub open spec fn ascii_lower_seq(s: Seq<char>) -> Seq<char> {
    s.map_values(|c: char| ascii_lower(c))
}

/// ASCII case-insensitive equality, as `str::eq_ignore_ascii_case` defines it.
pub open spec fn eq_ignore_ascii_case(a: Seq<char>, b: Seq<char>) -> bool {
    ascii_lower_seq(a) == ascii_lower_seq(b)
}

/// Index of the first character that is not whitespace (or the length).
pub open spec fn trim_start_index(s: Seq<char>) -> int
    decreases s.len(),
{
    if s.len() == 0 {
        0
    } else if is_whitespace(s[0]) {
        1 + trim_start_index(s.drop_first())
    } else {
        0
    }
}

/// Index just past the last character that is not whitespace (or zero).
pub open spec fn trim_end_index(s: Seq<char>) -> int
    decreases s.len(),
{
    if s.len() == 0 {
        0
    } else if is_whitespace(s.last()) {
        trim_end_index(s.drop_last())
    } else {
        s.len() as int
    }
}

/// `s` without leading and trailing whitespace, as `str::trim` returns it.
pub open spec fn trim(s: Seq<char>) -> Seq<char> {
    if trim_start_index(s) >= trim_end_index(s) {
        Seq::empty()
    } else {
        s.subrange(trim_start_index(s), trim_end_index(s))
    }
}

/// Whether `s` consists of whitespace only (the empty text included).
pub open spec fn is_blank(s: Seq<char>) -> bool {
    forall|i: int| 0 <= i < s.len() ==> is_whitespace(#[trigger] s[i])
}

pub proof fn lemma_trim_start_bounds(s: Seq<char>)
    ensures
        0 <= trim_start_index(s) <= s.len(),
        forall|i: int| 0 <= i < trim_start_index(s) ==> is_whitespace(#[trigger] s[i]),
        trim_start_index(s) < s.len() ==> !is_whitespace(s[trim_start_index(s)]),
    decreases s.len(),
{
    if s.len() > 0 && is_whitespace(s[0]) {
        lemma_trim_start_bounds(s.drop_first());
        assert forall|i: int| 0 <= i < trim_start_index(s) implies is_whitespace(#[trigger] s[i]) by {
            if i > 0 {
                assert(s[i] == s.drop_first()[i - 1]);
            }
        }
    }
}

pub proof fn lemma_trim_end_bounds(s: Seq<char>)
    ensures
        0 <= trim_end_index(s) <= s.len(),
        forall|i: int| trim_end_index(s) <= i < s.len() ==> is_whitespace(#[trigger] s[i]),
        trim_end_index(s) > 0 ==> !is_whitespace(s[trim_end_index(s) - 1]),
    decreases s.len(),
{
    if s.len() > 0 && is_whitespace(s.last()) {
        lemma_trim_end_bounds(s.drop_last());
        assert forall|i: int| trim_end_index(s) <= i < s.len() implies is_whitespace(
            #[trigger] s[i],
        ) by {
            if i < s.len() - 1 {
                assert(s[i] == s.drop_last()[i]);
            }
        }
    }
}

/// A text trims to nothing exactly when it is blank.
pub proof fn lemma_trim_empty_iff_blank(s: Seq<char>)
    ensures
        (trim(s).len() == 0) <==> is_blank(s),
{
    lemma_trim_start_bounds(s);
    lemma_trim_end_bounds(s);
    if trim(s).len() == 0 {
        assert forall|i: int| 0 <= i < s.len() implies is_whitespace(#[trigger] s[i]) by {
            if i >= trim_start_index(s) && i < trim_end_index(s) {
                assert(false);
            }
        }
    }
    if is_blank(s) && trim_start_index(s) < s.len() {
        assert(is_whitespace(s[trim_start_index(s)]));
    }
}

/// Appends one character to a `String` (`String::push`).
#[verifier::external_body]
pub(crate) fn string_push(s: &mut String, c: char)
    ensures
        final(s)@ == old(s)@.push(c),
{
    s.push(c);
}

/// The characters of a string slice, in order.
pub fn chars_of(s: &str) -> (chars: Vec<char>)
    ensures
        chars@ == s@,
{
    let mut out: Vec<char> = Vec::new();
    let mut iter = s.chars();
    loop
        invariant
            vstd::std_specs::iter::IteratorSpec::obeys_prophetic_iter_laws(&iter),
            out@ + vstd::std_specs::iter::IteratorSpec::remaining(&iter) == s@,
            vstd::std_specs::iter::IteratorSpec::decrease(&iter) is Some,
        ensures
            out@ == s@,
        decreases vstd::std_specs::iter::IteratorSpec::decrease(&iter)->0,
    {
        match iter.next() {
            Some(c) => {
                out.push(c);
            },
            None => {
                assert(vstd::std_specs::iter::IteratorSpec::remaining(&iter).len() == 0);
                assert(out@ + vstd::std_specs::iter::IteratorSpec::remaining(&iter) =~= out@);
                break;
            },
        }
    }
    out
}

/// A `String` holding the characters `chars[start..end]`.
pub fn string_from_range(chars: &Vec<char>, start: usize, end: usize) -> (s: String)
    requires
        start <= end <= chars@.len(),
    ensures
        s@ == chars@.subrange(start as int, end as int),
{
    let mut s = String::new();
    let mut i = start;
    while i < end
        invariant
            start <= i <= end <= chars@.len(),
            s@ == chars@.subrange(start as int, i as int),
        decreases end - i,
    {
        string_push(&mut s, chars[i]);
        assert(chars@.subrange(start as int, i + 1) == chars@.subrange(start as int, i as int).push(chars@[i as int]));
        i = i + 1;
    }
    s
}

/// A `String` holding all of `chars`.
pub fn string_from_chars(chars: &Vec<char>) -> (s: String)
    ensures
        s@ == chars@,
{
    let s = string_from_range(chars, 0, chars.len());
    assert(chars@.subrange(0, chars@.len() as int) == chars@);
    s
}

pub fn is_whitespace_char(c: char) -> (b: bool)
    ensures
        b == is_whitespace(c),
{
    let v = c as u32;
    (0x09 <= v && v <= 0x0D) || v == 0x20 || v == 0x85 || v == 0xA0 || v == 0x1680 || (0x2000 <= v
        && v <= 0x200A) || v == 0x2028 || v == 0x2029 || v == 0x202F || v == 0x205F || v == 0x3000
}

pub fn is_control_char(c: char) -> (b: bool)
    ensures
        b == is_control(c),
{
    let v = c as u32;
    v <= 0x1F || (0x7F <= v && v <= 0x9F)
}

pub fn ascii_lower_char(c: char) -> (l: char)
    ensures
        l == ascii_lower(c),
{
    if 'A' <= c && c <= 'Z' {
        let v = (c as u32) + 32;
        assert(v <= 0x7A);
        let l = char_from_ascii(v);
        l
    } else {
        c
    }
}

/// The character with an ASCII code point.
fn char_from_ascii(v: u32) -> (c: char)
    requires
        v < 0x80,
    ensures
        c as u32 == v,
        c == v as char,
{
    let b = v as u8;
    b as char
}

/// Start and end of the trimmed range of `chars`.
pub fn trim_bounds(chars: &Vec<char>) -> (bounds: (usize, usize))
    ensures
        bounds.0 <= bounds.1 <= chars@.len(),
        chars@.subrange(bounds.0 as int, bounds.1 as int) == trim(chars@),
{
    proof {
        lemma_trim_start_bounds(chars@);
        lemma_trim_end_bounds(chars@);
    }
    let mut start: usize = 0;
    while start < chars.len() && is_whitespace_char(chars[start])
        invariant
            start <= chars@.len(),
            forall|i: int| 0 <= i < start ==> is_whitespace(#[trigger] chars@[i]),
            start <= trim_start_index(chars@),
            trim_start_index(chars@) <= chars@.len(),
            forall|i: int| 0 <= i < trim_start_index(chars@) ==> is_whitespace(#[trigger] chars@[i]),
            trim_start_index(chars@) < chars@.len() ==> !is_whitespace(chars@[trim_start_index(chars@)]),
        decreases chars@.len() - start,
    {
        start = start + 1;
    }
    assert(start == trim_start_index(chars@));
    let mut end: usize = chars.len();
    while end > start && is_whitespace_char(chars[end - 1])
        invariant
            start <= end <= chars@.len(),
            forall|i: int| end <= i < chars@.len() ==> is_whitespace(#[trigger] chars@[i]),
            trim_end_index(chars@) <= end,
            start == trim_start_index(chars@),
            trim_end_index(chars@) <= chars@.len(),
            forall|i: int| trim_end_index(chars@) <= i < chars@.len() ==> is_whitespace(#[trigger] chars@[i]),
            trim_end_index(chars@) > 0 ==> !is_whitespace(chars@[trim_end_index(chars@) - 1]),
            forall|i: int| 0 <= i < trim_start_index(chars@) ==> is_whitespace(#[trigger] chars@[i]),
            trim_start_index(chars@) < chars@.len() ==> !is_whitespace(chars@[trim_start_index(chars@)]),
        decreases end,
    {
        end = end - 1;
    }
    proof {
        if trim_start_index(chars@) >= trim_end_index(chars@) {
            if end > start {
                assert(!is_whitespace(chars@[end - 1]));
            }
            assert(end == start);
            assert(chars@.subrange(start as int, end as int) =~= Seq::<char>::empty());
        } else {
            if end > trim_end_index(chars@) {
                assert(!is_whitespace(chars@[end - 1]));
            }
            assert(end == trim_end_index(chars@));
        }
    }
    (start, end)
}

/// `str::trim` into an owned string.
pub fn trimmed(s: &str) -> (t: String)
    ensures
        t@ == trim(s@),
{
    let chars = chars_of(s);
    let (start, end) = trim_bounds(&chars);
    string_from_range(&chars, start, end)
}

/// Whether `s` is blank (`s.trim().is_empty()`).
pub fn is_blank_str(s: &str) -> (blank: bool)
    ensures
        blank == is_blank(s@),
        blank == (trim(s@).len() == 0),
{
    proof {
        lemma_trim_empty_iff_blank(s@);
    }
    let chars = chars_of(s);
    let (start, end) = trim_bounds(&chars);
    start == end
}

/// Exact equality of two string slices.
pub fn str_eq(a: &str, b: &str) -> (eq: bool)
    ensures
        eq == (a@ == b@),
{
    let x = chars_of(a);
    let y = chars_of(b);
    if x.len() != y.len() {
        return false;
    }
    let mut i: usize = 0;
    while i < x.len()
        invariant
            x@.len() == y@.len(),
            i <= x@.len(),
            forall|j: int| 0 <= j < i ==> x@[j] == y@[j],
            x@ == a@,
            y@ == b@,
        decreases x@.len() - i,
    {
        if x[i] != y[i] {
            assert(a@[i as int] != b@[i as int]);
            return false;
        }
        i = i + 1;
    }
    assert(x@ =~= y@);
    true
}

/// `str::eq_ignore_ascii_case`.
pub fn str_eq_ignore_ascii_case(a: &str, b: &str) -> (eq: bool)
    ensures
        eq == eq_ignore_ascii_case(a@, b@),
{
    let x = chars_of(a);
    let y = chars_of(b);
    if x.len() != y.len() {
        assert(ascii_lower_seq(a@).len() != ascii_lower_seq(b@).len());
        return false;
    }
    let mut i: usize = 0;
    while i < x.len()
        invariant
            x@.len() == y@.len(),
            i <= x@.len(),
            forall|j: int| 0 <= j < i ==> ascii_lower(x@[j]) == ascii_lower(y@[j]),
            x@ == a@,
            y@ == b@,
        decreases x@.len() - i,
    {
        if ascii_lower_char(x[i]) != ascii_lower_char(y[i]) {
            assert(ascii_lower_seq(a@)[i as int] != ascii_lower_seq(b@)[i as int]);
            return false;
        }
        i = i + 1;
    }
    assert(ascii_lower_seq(a@) =~= ascii_lower_seq(b@));
    true
}

/// `str::to_ascii_lowercase`.
pub fn to_ascii_lowercase(s: &str) -> (l: String)
    ensures
        l@ == ascii_lower_seq(s@),
{
    let x = chars_of(s);
    let mut out = String::new();
    let mut i: usize = 0;
    while i < x.len()
        invariant
            i <= x@.len(),
            x@ == s@,
            out@ == ascii_lower_seq(s@).subrange(0, i as int),
        decreases x@.len() - i,
    {
        string_push(&mut out, ascii_lower_char(x[i]));
        assert(ascii_lower_seq(s@).subrange(0, i + 1) =~= ascii_lower_seq(s@).subrange(
            0,
            i as int,
        ).push(ascii_lower(x@[i as int])));
        i = i + 1;
    }
    assert(ascii_lower_seq(s@).subrange(0, x@.len() as int) =~= ascii_lower_seq(s@));
    out
}

/// Whether `c` occurs in `s`.
pub fn contains_char(s: &str, c: char) -> (found: bool)
    ensures
        found == s@.contains(c),
{
    let x = chars_of(s);
    let mut i: usize = 0;
    while i < x.len()
        invariant
            x@ == s@,
            i <= x@.len(),
            forall|j: int| 0 <= j < i ==> x@[j] != c,
        decreases x@.len() - i,
    {
        if x[i] == c {
            assert(s@[i as int] == c);
            return true;
        }
        i = i + 1;
    }
    false
}

/// The uppercase hexadecimal digit for a value below sixteen.
pub open spec fn digit_of(v: nat) -> char {
    if v < 10 {
        (v + 0x30) as char
    } else {
        (v - 10 + 0x41) as char
    }
}

/// The decimal rendering of `n`, most significant digit first.
pub open spec fn decimal(n: nat) -> Seq<char>
    decreases n,
{
    if n < 10 {
        seq![digit_of(n)]
    } else {
        decimal(n / 10).push(digit_of(n % 10))
    }
}

/// The uppercase digit character of a value below sixteen.
pub fn digit_char(v: u32) -> (c: char)
    requires
        v < 16,
    ensures
        c == digit_of(v as nat),
{
    if v < 10 {
        char_from_ascii(v + 0x30)
    } else {
        char_from_ascii(v - 10 + 0x41)
    }
}

/// A `String` holding `chars` in reverse order.
pub fn string_from_reversed(chars: &Vec<char>) -> (s: String)
    ensures
        s@ == chars@.reverse(),
{
    let mut s = String::new();
    let mut i = chars.len();
    while i > 0
        invariant
            i <= chars@.len(),
            s@ == chars@.subrange(i as int, chars@.len() as int).reverse(),
        decreases i,
    {
        i = i - 1;
        string_push(&mut s, chars[i]);
        assert(chars@.subrange(i as int, chars@.len() as int).reverse() =~= chars@.subrange(
            i + 1,
            chars@.len() as int,
        ).reverse().push(chars@[i as int]));
    }
    assert(chars@.subrange(0, chars@.len() as int) =~= chars@);
    s
}

/// The decimal rendering of `n`.
pub fn u64_to_decimal(n: u64) -> (digits: String)
    ensures
        digits@ == decimal(n as nat),
    decreases n,
{
    if n < 10 {
        let mut digits = String::new();
        string_push(&mut digits, digit_char(n as u32));
        digits
    } else {
        let mut digits = u64_to_decimal(n / 10);
        string_push(&mut digits, digit_char((n % 10) as u32));
        digits
    }
}

/// The decimal rendering of `n`.
pub fn usize_to_decimal(n: usize) -> (digits: String)
    ensures
        digits@ == decimal(n as nat),
{
    u64_to_decimal(n as u64)
}

/// The decimal rendering of a signed value, with a leading `-` when negative.
pub open spec fn signed_decimal(n: int) -> Seq<char> {
    if n < 0 {
        seq!['-'] + decimal((-n) as nat)
    } else {
        decimal(n as nat)
    }
}

pub fn i64_to_decimal(n: i64) -> (digits: String)
    ensures
        digits@ == signed_decimal(n as int),
{
    if n < 0 {
        let magnitude: u64 = if n == i64::MIN {
            9223372036854775808
        } else {
            (-n) as u64
        };
        let mut digits = String::from_str("-");
        let rest = u64_to_decimal(magnitude);
        digits.append(rest.as_str());
        proof {
            reveal_strlit("-");
        }
        digits
    } else {
        u64_to_decimal(n as u64)
    }
}

/// Number of bytes in the UTF-8 encoding of `c` (`char::len_utf8`).
pub open spec fn utf8_len(c: char) -> nat {
    let v = c as u32;
    if v < 0x80 {
        1
    } else if v < 0x800 {
        2
    } else if v < 0x10000 {
        3
    } else {
        4
    }
}

/// Number of bytes in the UTF-8 encoding of a character sequence.
pub open spec fn utf8_bytes(s: Seq<char>) -> nat
    decreases s.len(),
{
    if s.len() == 0 {
        0
    } else {
        utf8_bytes(s.drop_last()) + utf8_len(s.last())
    }
}

pub fn char_utf8_len(c: char) -> (n: usize)
    ensures
        n == utf8_len(c),
{
    let v = c as u32;
    if v < 0x80 {
        1
    } else if v < 0x800 {
        2
    } else if v < 0x10000 {
        3
    } else {
        4
    }
}

pub proof fn lemma_utf8_bytes_prepend(c: char, s: Seq<char>)
    ensures
        utf8_bytes(seq![c] + s) == utf8_len(c) + utf8_bytes(s),
    decreases s.len(),
{
    reveal_with_fuel(utf8_bytes, 2);
    if s.len() == 0 {
        assert((seq![c] + s).drop_last() =~= Seq::<char>::empty());
        assert((seq![c] + s).last() == c);
        assert(utf8_bytes(Seq::<char>::empty()) == 0);
        assert(utf8_bytes(s) == 0);
        assert(seq![c] + s =~= seq![c]);
    } else {
        lemma_utf8_bytes_prepend(c, s.drop_last());
        assert((seq![c] + s).drop_last() =~= seq![c] + s.drop_last());
        assert((seq![c] + s).last() == s.last());
    }
}

/// `utf8_bytes` distributes over concatenation.
pub proof fn lemma_utf8_bytes_concat(a: Seq<char>, b: Seq<char>)
    ensures
        utf8_bytes(a + b) == utf8_bytes(a) + utf8_bytes(b),
    decreases a.len(),
{
    if a.len() == 0 {
        assert(a + b =~= b);
    } else {
        lemma_utf8_bytes_concat(a.drop_first(), b);
        assert(a + b =~= seq![a[0]] + (a.drop_first() + b));
        assert(a =~= seq![a[0]] + a.drop_first());
        lemma_utf8_bytes_prepend(a[0], a.drop_first() + b);
        lemma_utf8_bytes_prepend(a[0], a.drop_first());
    }
}

/// `utf8_bytes` is the length of the encoding vstd gives a character sequence.
pub proof fn lemma_utf8_bytes_is_encoding_len(s: Seq<char>)
    ensures
        utf8_bytes(s) == vstd::utf8::encode_utf8(s).len(),
    decreases s.len(),
{
    if s.len() > 0 {
        lemma_utf8_bytes_is_encoding_len(s.drop_first());
        assert(s =~= seq![s[0]] + s.drop_first());
        lemma_utf8_bytes_prepend(s[0], s.drop_first());
        let v = s[0] as u32;
        vstd::utf8::char_is_scalar(s[0]);
        assert(vstd::utf8::encode_scalar(v).len() == utf8_len(s[0]));
    }
}

/// Number of bytes in the UTF-8 encoding of `s` (`str::len`).
pub fn str_byte_len(s: &str) -> (n: usize)
    ensures
        n == utf8_bytes(s@),
{
    proof {
        lemma_utf8_bytes_is_encoding_len(s@);
    }
    let bytes = s.as_bytes();
    assert(bytes@ == vstd::utf8::encode_utf8(s@));
    bytes.len()
}

/// Every character takes at least one byte.
pub proof fn lemma_utf8_bytes_at_least_len(s: Seq<char>)
    ensures
        utf8_bytes(s) >= s.len(),
    decreases s.len(),
{
    if s.len() > 0 {
        lemma_utf8_bytes_at_least_len(s.drop_last());
    }
}

/// Longer prefixes take strictly more bytes.
pub proof fn lemma_utf8_bytes_prefix_increasing(s: Seq<char>, a: int, b: int)
    requires
        0 <= a < b <= s.len(),
    ensures
        utf8_bytes(s.subrange(0, a)) < utf8_bytes(s.subrange(0, b)),
        utf8_bytes(s.subrange(0, b)) <= utf8_bytes(s),
{
    assert(s.subrange(0, b) =~= s.subrange(0, a) + s.subrange(a, b));
    lemma_utf8_bytes_concat(s.subrange(0, a), s.subrange(a, b));
    lemma_utf8_bytes_at_least_len(s.subrange(a, b));
    assert(s =~= s.subrange(0, b) + s.subrange(b, s.len() as int));
    lemma_utf8_bytes_concat(s.subrange(0, b), s.subrange(b, s.len() as int));
}

/// The byte offset at which each character of `chars` begins, followed by the
/// total length: `offsets[k]` is the length in bytes of `chars[..k]`.
pub fn prefix_byte_offsets(chars: &Vec<char>, total_bytes: usize) -> (offsets: Vec<usize>)
    requires
        total_bytes == utf8_bytes(chars@),
    ensures
        offsets@.len() == chars@.len() + 1,
        forall|k: int| 0 <= k <= chars@.len() ==> #[trigger] offsets@[k] == utf8_bytes(chars@.subrange(0, k)),
{
    let mut offsets: Vec<usize> = Vec::new();
    offsets.push(0);
    proof {
        assert(chars@.subrange(0, 0) =~= Seq::<char>::empty());
    }
    let mut sum: usize = 0;
    let mut k: usize = 0;
    let len = chars.len();
    while k < len
        invariant
            len == chars@.len(),
            total_bytes == utf8_bytes(chars@),
            k <= len,
            offsets@.len() == k + 1,
            sum == utf8_bytes(chars@.subrange(0, k as int)),
            forall|j: int| 0 <= j <= k ==> #[trigger] offsets@[j] == utf8_bytes(chars@.subrange(0, j)),
        decreases len - k,
    {
        proof {
            lemma_utf8_bytes_prefix_increasing(chars@, k as int, k + 1);
            assert(chars@.subrange(0, k + 1).drop_last() =~= chars@.subrange(0, k as int));
        }
        sum = sum + char_utf8_len(chars[k]);
        offsets.push(sum);
        k = k + 1;
    }
    offsets
}

/// A text without leading or trailing whitespace is its own trim.
pub proof fn lemma_trim_of_trimmed(s: Seq<char>)
    requires
        s.len() == 0 || (!is_whitespace(s[0]) && !is_whitespace(s.last())),
    ensures
        trim(s) == s,
{
    if s.len() > 0 {
        assert(trim_start_index(s) == 0);
        assert(trim_end_index(s) == s.len());
        assert(s.subrange(0, s.len() as int) =~= s);
    }
}

/// A trimmed text neither begins nor ends with whitespace.
pub proof fn lemma_trim_ends(s: Seq<char>)
    ensures
        trim(s).len() == 0 || (!is_whitespace(trim(s)[0]) && !is_whitespace(trim(s).last())),
{
    lemma_trim_start_bounds(s);
    lemma_trim_end_bounds(s);
}

/// Trimming twice is trimming once.
pub proof fn lemma_trim_idempotent(s: Seq<char>)
    ensures
        trim(trim(s)) == trim(s),
{
    lemma_trim_ends(s);
    lemma_trim_of_trimmed(trim(s));
}

/// ASCII lowercasing twice is lowercasing once, and it keeps whitespace where
/// it was.
pub proof fn lemma_ascii_lower_properties(s: Seq<char>)
    ensures
        ascii_lower_seq(ascii_lower_seq(s)) == ascii_lower_seq(s),
        ascii_lower_seq(s).len() == s.len(),
        forall|i: int| 0 <= i < s.len() ==> (is_whitespace(#[trigger] ascii_lower_seq(s)[i]) <==> is_whitespace(s[i])),
{
    assert(ascii_lower_seq(ascii_lower_seq(s)) =~= ascii_lower_seq(s));
}

} // verus!
