//! Platform-independent logic of the native, X11/XTEST and Wayland/EIS insertion
//! backends: options, text validation, keysym encoding, scratch-key selection and
//! protocol chunking.
use vstd::prelude::*;

use crate::insertion::{
    InsertionAuthorization, InsertionBackend, InsertionCapability, InsertionError,
    InsertionErrorKind,
};
use crate::text::{
    digit_char, digit_of, char_utf8_len, chars_of, is_control, is_control_char, lemma_utf8_bytes_prepend, string_from_range,
    string_push, utf8_bytes, utf8_len,
};

verus! {

pub const XK_RETURN: u32 = 0xFF0D;

pub const XK_TAB: u32 = 0xFF09;

pub const UNICODE_KEYSYM_PREFIX: u32 = 0x0100_0000;

/// Largest UTF-8 payload of one `ei_text.utf8` request.
pub const EI_TEXT_MAX_UTF8_BYTES: usize = 254;

#[derive(Debug, Clone, Copy, PartialEq, Eq, Structural)]
pub struct NativeInsertionOptions {
    prompt_for_accessibility: bool,
}

impl NativeInsertionOptions {
    pub closed spec fn spec_prompt_for_accessibility(&self) -> bool {
        self.prompt_for_accessibility
    }

    pub fn new(prompt_for_accessibility: bool) -> (options: Self)
        ensures
            options.spec_prompt_for_accessibility() == prompt_for_accessibility,
    {
        NativeInsertionOptions { prompt_for_accessibility }
    }

    pub fn prompt_for_accessibility(&self) -> (prompt: bool)
        ensures
            prompt == self.spec_prompt_for_accessibility(),
    {
        self.prompt_for_accessibility
    }
}

impl Default for NativeInsertionOptions {
    fn default() -> (options: Self)
        ensures
            options.spec_prompt_for_accessibility(),
    {
        NativeInsertionOptions::new(true)
    }
}

#[derive(Debug, Clone, PartialEq, Eq)]
pub struct X11Options {
    display: Option<String>,
}

impl X11Options {
    pub closed spec fn spec_display(&self) -> Option<Seq<char>> {
        match self.display {
            Some(d) => Some(d@),
            None => None,
        }
    }

    pub fn new(display: Option<String>) -> (options: Self)
        ensures
            options.spec_display() == (match display {
                Some(d) => Some(d@),
                None => None::<Seq<char>>,
            }),
    {
        X11Options { display }
    }

    pub fn display(&self) -> (display: Option<&str>)
        ensures
            match display {
                Some(d) => self.spec_display() == Some(d@),
                None => self.spec_display() is None,
            },
    {
        match &self.display {
            Some(d) => Some(d.as_str()),
            None => None,
        }
    }
}

impl Default for X11Options {
    fn default() -> (options: Self)
        ensures
            options.spec_display() is None,
    {
        X11Options { display: None }
    }
}

#[derive(Debug, Clone, PartialEq, Eq)]
pub struct WaylandEisOptions {
    restore_token: Option<String>,
}

impl WaylandEisOptions {
    pub closed spec fn spec_restore_token(&self) -> Option<Seq<char>> {
        match self.restore_token {
            Some(t) => Some(t@),
            None => None,
        }
    }

    pub fn new(restore_token: Option<String>) -> (options: Self)
        ensures
            options.spec_restore_token() == (match restore_token {
                Some(t) => Some(t@),
                None => None::<Seq<char>>,
            }),
    {
        WaylandEisOptions { restore_token }
    }

    pub fn restore_token(&self) -> (token: Option<&str>)
        ensures
            match token {
                Some(t) => self.spec_restore_token() == Some(t@),
                None => self.spec_restore_token() is None,
            },
    {
        match &self.restore_token {
            Some(t) => Some(t.as_str()),
            None => None,
        }
    }
}

impl Default for WaylandEisOptions {
    fn default() -> (options: Self)
        ensures
            options.spec_restore_token() is None,
    {
        WaylandEisOptions { restore_token: None }
    }
}

/// The capability of the native SendInput/Quartz adapter.
pub fn native_capability() -> (capability: InsertionCapability)
    ensures
        capability.spec_backend() == InsertionBackend::WindowsSendInput,
        capability.spec_authorization() == InsertionAuthorization::NotRequired,
{
    InsertionCapability::new(InsertionBackend::WindowsSendInput, InsertionAuthorization::NotRequired)
}

/// The capability of the macOS Quartz adapter.
pub fn macos_native_capability() -> (capability: InsertionCapability)
    ensures
        capability.spec_backend() == InsertionBackend::MacOsQuartz,
        capability.spec_authorization() == InsertionAuthorization::MacOsAccessibility,
{
    InsertionCapability::new(
        InsertionBackend::MacOsQuartz,
        InsertionAuthorization::MacOsAccessibility,
    )
}

/// The capability of the X11/XTEST adapter.
pub fn x11_capability() -> (capability: InsertionCapability)
    ensures
        capability.spec_backend() == InsertionBackend::X11XTest,
        capability.spec_authorization() == InsertionAuthorization::NotRequired,
{
    InsertionCapability::new(InsertionBackend::X11XTest, InsertionAuthorization::NotRequired)
}

/// The capability of the XDG RemoteDesktop/EIS adapter.
pub fn wayland_eis_capability() -> (capability: InsertionCapability)
    ensures
        capability.spec_backend() == InsertionBackend::XdgRemoteDesktopEis,
        capability.spec_authorization() == InsertionAuthorization::XdgRemoteDesktop,
{
    InsertionCapability::new(
        InsertionBackend::XdgRemoteDesktopEis,
        InsertionAuthorization::XdgRemoteDesktop,
    )
}

/// Text accepted by the native and EIS backends: non-empty and free of NUL.
pub open spec fn spec_plain_text_valid(text: Seq<char>) -> bool {
    text.len() > 0 && !text.contains('\0')
}

/// Validation of text for the native SendInput/Quartz backend.
pub fn validate_native_text(text: &str) -> (result: Result<(), InsertionError>)
    ensures
        match result {
            Ok(()) => spec_plain_text_valid(text@),
            Err(e) => !spec_plain_text_valid(text@) && e.spec_kind()
                == InsertionErrorKind::InvalidText && e.spec_message() == (if text@.len() == 0 {
                "cannot submit empty text through the native insertion backend"@
            } else {
                "text contains a NUL byte, which the native insertion backend cannot encode"@
            }),
        },
{
    if text.is_empty() {
        return Err(
            InsertionError::new(
                InsertionErrorKind::InvalidText,
                "cannot submit empty text through the native insertion backend",
            ),
        );
    }
    if crate::text::contains_char(text, '\0') {
        return Err(
            InsertionError::new(
                InsertionErrorKind::InvalidText,
                "text contains a NUL byte, which the native insertion backend cannot encode",
            ),
        );
    }
    Ok(())
}

/// Validation of text for `ei_text.utf8` submission.
pub fn validate_eis_text(text: &str) -> (result: Result<(), InsertionError>)
    ensures
        match result {
            Ok(()) => spec_plain_text_valid(text@),
            Err(e) => !spec_plain_text_valid(text@) && e.spec_kind()
                == InsertionErrorKind::InvalidText && e.spec_message() == (if text@.len() == 0 {
                "cannot submit empty text through ei_text.utf8"@
            } else {
                "text contains a NUL byte, which ei_text.utf8 cannot encode"@
            }),
        },
{
    if text.is_empty() {
        return Err(
            InsertionError::new(
                InsertionErrorKind::InvalidText,
                "cannot submit empty text through ei_text.utf8",
            ),
        );
    }
    if crate::text::contains_char(text, '\0') {
        return Err(
            InsertionError::new(
                InsertionErrorKind::InvalidText,
                "text contains a NUL byte, which ei_text.utf8 cannot encode",
            ),
        );
    }
    Ok(())
}

/// A character XTEST insertion can type: no control character other than
/// newline, carriage return and tab.
pub open spec fn spec_x11_char_allowed(c: char) -> bool {
    c != '\0' && (!is_control(c) || c == '\n' || c == '\r' || c == '\t')
}

pub open spec fn spec_x11_text_valid(text: Seq<char>) -> bool {
    text.len() > 0 && forall|i: int| 0 <= i < text.len() ==> spec_x11_char_allowed(#[trigger] text[i])
}

/// The uppercase hexadecimal rendering of `n`, most significant digit first.
pub open spec fn hex(n: nat) -> Seq<char>
    decreases n,
{
    if n < 16 {
        seq![digit_of(n)]
    } else {
        hex(n / 16).push(digit_of(n % 16))
    }
}

/// `digits` padded with leading zeros to at least four characters (the
/// `{:04X}` rendering of a number).
pub open spec fn pad4(digits: Seq<char>) -> Seq<char> {
    if digits.len() < 4 {
        Seq::new((4 - digits.len()) as nat, |i: int| '0') + digits
    } else {
        digits
    }
}

fn hex_digits(n: u32) -> (digits: String)
    ensures
        digits@ == hex(n as nat),
    decreases n,
{
    if n < 16 {
        let mut digits = String::new();
        string_push(&mut digits, digit_char(n));
        digits
    } else {
        let mut digits = hex_digits(n / 16);
        string_push(&mut digits, digit_char(n % 16));
        digits
    }
}

/// The code point of `c` as at least four uppercase hexadecimal digits.
pub fn hex_code_point(c: char) -> (digits: String)
    ensures
        digits@ == pad4(hex(c as u32 as nat)),
{
    let digits = hex_digits(c as u32);
    let count = chars_of(digits.as_str()).len();
    let mut padded = String::new();
    let mut k: usize = count;
    while k < 4
        invariant
            count == digits@.len(),
            count <= k <= 4 || count > 4 && k == count,
            padded@ == Seq::new((k - count) as nat, |i: int| '0'),
        decreases 4 - k,
    {
        string_push(&mut padded, '0');
        assert(padded@ =~= Seq::new((k + 1 - count) as nat, |i: int| '0'));
        k = k + 1;
    }
    padded.append(digits.as_str());
    proof {
        if count >= 4 {
            assert(padded@ =~= digits@);
        } else {
            assert(padded@ =~= Seq::new((4 - count) as nat, |i: int| '0') + digits@);
        }
    }
    padded
}

/// Why XTEST cannot type `c`, if it cannot.
pub open spec fn spec_x11_char_problem(c: char) -> Option<Seq<char>> {
    if c == '\0' {
        Some("text contains a NUL character"@)
    } else if is_control(c) && !(c == '\n' || c == '\r' || c == '\t') {
        Some("text contains unsupported control character U+"@ + pad4(hex(c as u32 as nat)))
    } else {
        None
    }
}

/// The problem of the first character of `text` that XTEST cannot type.
pub open spec fn spec_first_x11_problem(text: Seq<char>) -> Option<Seq<char>>
    decreases text.len(),
{
    if text.len() == 0 {
        None
    } else if spec_x11_char_problem(text[0]) is Some {
        spec_x11_char_problem(text[0])
    } else {
        spec_first_x11_problem(text.drop_first())
    }
}

proof fn lemma_first_x11_problem_skips_allowed(text: Seq<char>, i: int)
    requires
        0 <= i <= text.len(),
        forall|j: int| 0 <= j < i ==> spec_x11_char_allowed(#[trigger] text[j]),
    ensures
        spec_first_x11_problem(text) == spec_first_x11_problem(text.subrange(i, text.len() as int)),
    decreases i,
{
    if i == 0 {
        assert(text.subrange(0, text.len() as int) =~= text);
    } else {
        assert(spec_x11_char_allowed(text[0]));
        let rest = text.drop_first();
        assert forall|j: int| 0 <= j < i - 1 implies spec_x11_char_allowed(#[trigger] rest[j]) by {
            assert(rest[j] == text[j + 1]);
        }
        lemma_first_x11_problem_skips_allowed(rest, i - 1);
        assert(rest.subrange(i - 1, rest.len() as int) =~= text.subrange(i, text.len() as int));
    }
}

/// Validation of text for XTEST submission: the first character it cannot
/// type is reported.
pub fn validate_x11_text(text: &str) -> (result: Result<(), InsertionError>)
    ensures
        match result {
            Ok(()) => spec_x11_text_valid(text@),
            Err(e) => !spec_x11_text_valid(text@) && e.spec_kind()
                == InsertionErrorKind::InvalidText && e.spec_message() == (if text@.len() == 0 {
                "cannot submit empty text through XTEST"@
            } else {
                spec_first_x11_problem(text@)->0
            }),
        },
{
    if text.is_empty() {
        return Err(
            InsertionError::new(
                InsertionErrorKind::InvalidText,
                "cannot submit empty text through XTEST",
            ),
        );
    }
    let chars = chars_of(text);
    let mut i: usize = 0;
    while i < chars.len()
        invariant
            chars@ == text@,
            i <= chars@.len(),
            forall|j: int| 0 <= j < i ==> spec_x11_char_allowed(#[trigger] chars@[j]),
        decreases chars@.len() - i,
    {
        let c = chars[i];
        if c == '\0' || (is_control_char(c) && !(c == '\n' || c == '\r' || c == '\t')) {
            proof {
                lemma_first_x11_problem_skips_allowed(text@, i as int);
                assert(text@.subrange(i as int, text@.len() as int)[0] == c);
                assert(!spec_x11_char_allowed(text@[i as int]));
            }
            if c == '\0' {
                return Err(
                    InsertionError::new(InsertionErrorKind::InvalidText, "text contains a NUL character"),
                );
            }
            let mut message = String::from_str("text contains unsupported control character U+");
            let digits = hex_code_point(c);
            message.append(digits.as_str());
            return Err(InsertionError::with_message(InsertionErrorKind::InvalidText, message));
        }
        i = i + 1;
    }
    Ok(())
}

/// The X11 keysym that types `c`: Return and Tab for line and tab controls,
/// the Latin-1 keysym for printable Latin-1, and the Unicode keysym otherwise.
pub open spec fn spec_char_to_keysym(c: char) -> u32 {
    let v = c as u32;
    if c == '\n' || c == '\r' {
        XK_RETURN
    } else if c == '\t' {
        XK_TAB
    } else if (0x20 <= v && v <= 0x7E) || (0xA0 <= v && v <= 0xFF) {
        v
    } else {
        (UNICODE_KEYSYM_PREFIX + v) as u32
    }
}

pub fn char_to_keysym(character: char) -> (keysym: u32)
    ensures
        keysym == spec_char_to_keysym(character),
{
    let v = character as u32;
    if character == '\n' || character == '\r' {
        XK_RETURN
    } else if character == '\t' {
        XK_TAB
    } else if (0x20 <= v && v <= 0x7E) || (0xA0 <= v && v <= 0xFF) {
        v
    } else {
        assert(v <= 0x10FFFF);
        assert((UNICODE_KEYSYM_PREFIX | v) == UNICODE_KEYSYM_PREFIX + v) by (bit_vector)
            requires
                v <= 0x10FFFF,
                UNICODE_KEYSYM_PREFIX == 0x0100_0000,
        ;
        UNICODE_KEYSYM_PREFIX | v
    }
}

/// Distinct characters never share a keysym unless both are line breaks.
pub proof fn law_keysyms_distinguish_characters(a: char, b: char)
    requires
        a != b,
        !((a == '\n' || a == '\r') && (b == '\n' || b == '\r')),
    ensures
        spec_char_to_keysym(a) != spec_char_to_keysym(b),
{
    assert(a as u32 != b as u32);
}

/// Whether the `index`-th keycode mapping of width `k` is empty (all keysyms zero).
pub open spec fn spec_mapping_empty(keysyms: Seq<u32>, k: int, index: int) -> bool {
    forall|j: int| index * k <= j < index * k + k ==> keysyms[j] == 0
}

/// Whether keycode number `index` (counted from `min_keycode`) may serve as the
/// scratch key: it exists as a complete mapping, fits in a keycode byte, maps
/// nothing, and is not a modifier.
pub open spec fn spec_scratch_candidate(
    min_keycode: u8,
    k: int,
    keysyms: Seq<u32>,
    modifiers: Seq<u8>,
    index: int,
) -> bool {
    &&& 0 <= index
    &&& k > 0
    &&& index < (keysyms.len() as int) / k
    &&& min_keycode + index <= 255
    &&& spec_mapping_empty(keysyms, k, index)
    &&& !modifiers.contains((min_keycode + index) as u8)
}

proof fn lemma_chunk_fits(index: int, k: int, n: int)
    requires
        k > 0,
        0 <= index < n / k,
        n >= 0,
    ensures
        index * k + k <= n,
        0 <= index * k,
{
    assert(index * k + k <= n) by (nonlinear_arith)
        requires
            k > 0,
            0 <= index < n / k,
            n >= 0,
    ;
    assert(0 <= index * k) by (nonlinear_arith)
        requires
            k > 0,
            0 <= index,
    ;
}

/// The first unused, non-modifier keycode of the keyboard mapping, if any.
pub fn find_scratch_keycode(
    min_keycode: u8,
    keysyms_per_keycode: usize,
    keysyms: &[u32],
    modifier_keycodes: &[u8],
) -> (keycode: Option<u8>)
    ensures
        match keycode {
            Some(code) => exists|index: int|
                {
                    &&& spec_scratch_candidate(
                        min_keycode,
                        keysyms_per_keycode as int,
                        keysyms@,
                        modifier_keycodes@,
                        index,
                    )
                    &&& code == min_keycode + index
                    &&& forall|earlier: int|
                        0 <= earlier < index ==> !spec_scratch_candidate(
                            min_keycode,
                            keysyms_per_keycode as int,
                            keysyms@,
                            modifier_keycodes@,
                            earlier,
                        )
                },
            None => forall|index: int|
                !spec_scratch_candidate(
                    min_keycode,
                    keysyms_per_keycode as int,
                    keysyms@,
                    modifier_keycodes@,
                    index,
                ),
        },
{
    let k = keysyms_per_keycode;
    if k == 0 {
        return None;
    }
    let total = keysyms.len();
    let chunks = total / k;
    let mut index: usize = 0;
    while index < chunks
        invariant
            total == keysyms@.len(),
            k == keysyms_per_keycode,
            k > 0,
            chunks == (keysyms@.len() as int) / (k as int),
            index <= chunks,
            forall|earlier: int|
                0 <= earlier < index ==> !spec_scratch_candidate(
                    min_keycode,
                    k as int,
                    keysyms@,
                    modifier_keycodes@,
                    earlier,
                ),
        decreases chunks - index,
    {
        proof {
            lemma_chunk_fits(index as int, k as int, keysyms@.len() as int);
        }
        assert(index * k + k <= keysyms@.len());
        if index > 255 - (min_keycode as usize) {
            assert forall|later: int| index <= later implies !spec_scratch_candidate(
                min_keycode,
                k as int,
                keysyms@,
                modifier_keycodes@,
                later,
            ) by {}
            return None;
        }
        let start = index * k;
        let mut j: usize = 0;
        let mut unused = true;
        while j < k
            invariant
                k > 0,
                start == index * k,
                start + k <= total,
                total == keysyms@.len(),
                j <= k,
                unused == (forall|m: int| start <= m < start + j ==> keysyms@[m] == 0),
            decreases k - j,
        {
            if keysyms[start + j] != 0 {
                unused = false;
            }
            j = j + 1;
        }
        let keycode = (min_keycode as usize + index) as u8;
        let mut m: usize = 0;
        let mut modifier = false;
        while m < modifier_keycodes.len()
            invariant
                m <= modifier_keycodes@.len(),
                modifier == (exists|p: int| 0 <= p < m && modifier_keycodes@[p] == keycode),
            decreases modifier_keycodes@.len() - m,
        {
            if modifier_keycodes[m] == keycode {
                modifier = true;
            }
            m = m + 1;
        }
        if unused && !modifier {
            assert(keycode == min_keycode + index);
            assert(!modifier_keycodes@.contains(keycode)) by {
                if modifier_keycodes@.contains(keycode) {
                    let p = choose|p: int|
                        0 <= p < modifier_keycodes@.len() && modifier_keycodes@[p] == keycode;
                    assert(exists|p: int| 0 <= p < m && modifier_keycodes@[p] == keycode);
                }
            }
            assert(spec_mapping_empty(keysyms@, k as int, index as int));
            assert(spec_scratch_candidate(
                min_keycode,
                k as int,
                keysyms@,
                modifier_keycodes@,
                index as int,
            ));
            return Some(keycode);
        }
        proof {
            if !modifier {
                assert(!modifier_keycodes@.contains(keycode)) by {
                    if modifier_keycodes@.contains(keycode) {
                        let p = choose|p: int|
                            0 <= p < modifier_keycodes@.len() && modifier_keycodes@[p] == keycode;
                        assert(exists|p: int| 0 <= p < m && modifier_keycodes@[p] == keycode);
                    }
                }
            } else {
                let p = choose|p: int| 0 <= p < m && modifier_keycodes@[p] == keycode;
                assert(modifier_keycodes@.contains(keycode));
            }
        }
        index = index + 1;
    }
    None
}

/// Length, in characters, of the longest prefix of `s` whose encoding fits in
/// `budget` bytes.
pub open spec fn fitting_prefix_len(s: Seq<char>, budget: int) -> int
    decreases s.len(),
{
    if s.len() == 0 || budget < utf8_len(s[0]) {
        0
    } else {
        1 + fitting_prefix_len(s.drop_first(), budget - utf8_len(s[0]))
    }
}

/// The chunks `ei_text.utf8` receives for `s`: each the longest prefix of what
/// remains that fits in the protocol limit.
pub open spec fn spec_utf8_chunks(s: Seq<char>) -> Seq<Seq<char>>
    decreases s.len(),
{
    if s.len() == 0 {
        Seq::empty()
    } else {
        let n = fitting_prefix_len(s, EI_TEXT_MAX_UTF8_BYTES as int);
        if n <= 0 || n > s.len() {
            Seq::empty()
        } else {
            seq![s.subrange(0, n)] + spec_utf8_chunks(s.subrange(n, s.len() as int))
        }
    }
}

proof fn lemma_fitting_prefix_bounds(s: Seq<char>, budget: int)
    ensures
        0 <= fitting_prefix_len(s, budget) <= s.len(),
        budget >= 4 && s.len() > 0 ==> fitting_prefix_len(s, budget) >= 1,
        utf8_bytes(s.subrange(0, fitting_prefix_len(s, budget))) <= (if budget < 0 {
            0
        } else {
            budget
        }),
    decreases s.len(),
{
    if s.len() == 0 || budget < utf8_len(s[0]) {
        assert(s.subrange(0, 0) =~= Seq::<char>::empty());
    } else {
        let rest = s.drop_first();
        lemma_fitting_prefix_bounds(rest, budget - utf8_len(s[0]));
        let n = fitting_prefix_len(rest, budget - utf8_len(s[0]));
        lemma_utf8_bytes_prepend(s[0], rest.subrange(0, n));
        assert(s.subrange(0, n + 1) =~= seq![s[0]] + rest.subrange(0, n));
    }
}

/// Splits `text` into the chunks `ei_text.utf8` accepts: none is empty, none
/// exceeds the protocol limit, no character is split, and their concatenation
/// is `text`.
pub fn utf8_chunks(text: &str) -> (chunks: Vec<String>)
    ensures
        chunks@.len() == spec_utf8_chunks(text@).len(),
        forall|i: int| 0 <= i < chunks@.len() ==> #[trigger] chunks@[i]@ == spec_utf8_chunks(text@)[i],
{
    let chars = chars_of(text);
    let mut chunks: Vec<String> = Vec::new();
    let mut start: usize = 0;
    assert(chars@.subrange(0, chars@.len() as int) =~= text@);
    assert(chunks@.map_values(|c: String| c@) + spec_utf8_chunks(text@) =~= spec_utf8_chunks(
        text@,
    ));
    while start < chars.len()
        invariant
            chars@ == text@,
            start <= chars@.len(),
            spec_utf8_chunks(text@) == chunks@.map_values(|c: String| c@) + spec_utf8_chunks(
                chars@.subrange(start as int, chars@.len() as int),
            ),
        decreases chars@.len() - start,
    {
        let ghost rest = chars@.subrange(start as int, chars@.len() as int);
        let mut end = start;
        let mut budget = EI_TEXT_MAX_UTF8_BYTES;
        while end < chars.len() && char_utf8_len(chars[end]) <= budget
            invariant
                start <= end <= chars@.len(),
                budget <= EI_TEXT_MAX_UTF8_BYTES,
                rest == chars@.subrange(start as int, chars@.len() as int),
                fitting_prefix_len(rest, EI_TEXT_MAX_UTF8_BYTES as int) == (end - start)
                    + fitting_prefix_len(
                    chars@.subrange(end as int, chars@.len() as int),
                    budget as int,
                ),
            decreases chars@.len() - end,
        {
            let ghost tail = chars@.subrange(end as int, chars@.len() as int);
            assert(tail.drop_first() =~= chars@.subrange(end + 1, chars@.len() as int));
            budget = budget - char_utf8_len(chars[end]);
            end = end + 1;
        }
        proof {
            let tail = chars@.subrange(end as int, chars@.len() as int);
            assert(fitting_prefix_len(tail, budget as int) == 0);
            lemma_fitting_prefix_bounds(rest, EI_TEXT_MAX_UTF8_BYTES as int);
            assert(rest.len() > 0);
            assert(end > start);
            assert(rest.subrange(0, end - start) =~= chars@.subrange(start as int, end as int));
            assert(rest.subrange(end - start, rest.len() as int) =~= tail);
        }
        let chunk = string_from_range(&chars, start, end);
        let ghost before = chunks@.map_values(|c: String| c@);
        chunks.push(chunk);
        assert(chunks@.map_values(|c: String| c@) =~= before.push(
            chars@.subrange(start as int, end as int),
        ));
        start = end;
    }
    proof {
        assert(chars@.subrange(start as int, chars@.len() as int) =~= Seq::<char>::empty());
        assert(chunks@.map_values(|c: String| c@) + Seq::<Seq<char>>::empty() =~= chunks@.map_values(
            |c: String| c@,
        ));
    }
    chunks
}

/// The concatenation of a sequence of texts.
pub open spec fn concat_all(parts: Seq<Seq<char>>) -> Seq<char>
    decreases parts.len(),
{
    if parts.len() == 0 {
        Seq::empty()
    } else {
        parts[0] + concat_all(parts.drop_first())
    }
}

/// Every chunk is non-empty, fits in the protocol limit, and the chunks
/// concatenate back to the text.
pub proof fn law_utf8_chunks_reassemble(s: Seq<char>)
    ensures
        forall|i: int|
            0 <= i < spec_utf8_chunks(s).len() ==> #[trigger] spec_utf8_chunks(s)[i].len() > 0
                && utf8_bytes(spec_utf8_chunks(s)[i]) <= EI_TEXT_MAX_UTF8_BYTES,
        concat_all(spec_utf8_chunks(s)) == s,
    decreases s.len(),
{
    if s.len() == 0 {
        assert(spec_utf8_chunks(s) =~= Seq::<Seq<char>>::empty());
    } else {
        let n = fitting_prefix_len(s, EI_TEXT_MAX_UTF8_BYTES as int);
        lemma_fitting_prefix_bounds(s, EI_TEXT_MAX_UTF8_BYTES as int);
        let rest = s.subrange(n, s.len() as int);
        law_utf8_chunks_reassemble(rest);
        let chunks = spec_utf8_chunks(s);
        assert(chunks == seq![s.subrange(0, n)] + spec_utf8_chunks(rest));
        assert(chunks.drop_first() =~= spec_utf8_chunks(rest));
        assert(s.subrange(0, n) + rest =~= s);
        assert forall|i: int| 0 <= i < chunks.len() implies #[trigger] chunks[i].len() > 0
            && utf8_bytes(chunks[i]) <= EI_TEXT_MAX_UTF8_BYTES by {
            if i > 0 {
                assert(chunks[i] == spec_utf8_chunks(rest)[i - 1]);
            }
        }
    }
}

/// How an XTEST submission ended, given how many UTF-8 bytes were typed before
/// a failure and whether the scratch-key mapping was restored.
pub fn x11_submission_error(submitted: usize, error: InsertionError) -> (outcome: InsertionError)
    ensures
        outcome.spec_kind() == (if submitted == 0 {
            error.spec_kind()
        } else {
            InsertionErrorKind::PartialSubmission
        }),
        outcome.spec_message() == "XTEST insertion failed after "@ + crate::text::decimal(
            submitted as nat,
        ) + " UTF-8 bytes were submitted: "@ + error.spec_message(),
{
    let kind = if submitted == 0 {
        error.kind()
    } else {
        InsertionErrorKind::PartialSubmission
    };
    let mut message = String::from_str("XTEST insertion failed after ");
    message.append(crate::text::usize_to_decimal(submitted).as_str());
    message.append(" UTF-8 bytes were submitted: ");
    message.append(error.message());
    InsertionError::with_message(kind, message)
}

/// One key press of an XTEST submission: the keysym the scratch key must be
/// remapped to first, if it differs from the previous character's, and the
/// UTF-8 length of the character it types.
#[derive(Debug, Clone, Copy, PartialEq, Eq, Structural)]
pub struct X11Keystroke {
    pub remap: Option<u32>,
    pub utf8_len: usize,
}

/// The keystroke that types character `i` of `text`: the scratch key is
/// remapped only when the keysym changes.
pub open spec fn spec_x11_keystroke(text: Seq<char>, i: int) -> X11Keystroke {
    X11Keystroke {
        remap: if i == 0 || spec_char_to_keysym(text[i]) != spec_char_to_keysym(text[i - 1]) {
            Some(spec_char_to_keysym(text[i]))
        } else {
            None
        },
        utf8_len: utf8_len(text[i]) as usize,
    }
}

/// The keystrokes that type `text` through the scratch key, one per character.
pub fn x11_keystroke_plan(text: &str) -> (plan: Vec<X11Keystroke>)
    ensures
        plan@.len() == text@.len(),
        forall|i: int| 0 <= i < text@.len() ==> #[trigger] plan@[i] == spec_x11_keystroke(text@, i),
{
    let chars = chars_of(text);
    let mut plan: Vec<X11Keystroke> = Vec::new();
    let mut active: Option<u32> = None;
    let mut i: usize = 0;
    while i < chars.len()
        invariant
            chars@ == text@,
            i <= chars@.len(),
            plan@.len() == i,
            forall|k: int| 0 <= k < i ==> #[trigger] plan@[k] == spec_x11_keystroke(text@, k),
            active == (if i == 0 {
                None
            } else {
                Some(spec_char_to_keysym(text@[i - 1]))
            }),
        decreases chars@.len() - i,
    {
        let keysym = char_to_keysym(chars[i]);
        let remap = match active {
            Some(current) => if current == keysym {
                None
            } else {
                Some(keysym)
            },
            None => Some(keysym),
        };
        plan.push(X11Keystroke { remap, utf8_len: char_utf8_len(chars[i]) });
        active = Some(keysym);
        i = i + 1;
    }
    plan
}

/// The UTF-8 bytes typed by `plan`.
pub open spec fn keystroke_bytes(plan: Seq<X11Keystroke>) -> nat
    decreases plan.len(),
{
    if plan.len() == 0 {
        0
    } else {
        keystroke_bytes(plan.drop_last()) + plan.last().utf8_len as nat
    }
}

/// The keystrokes that type `text`, as a sequence.
pub open spec fn spec_x11_plan(text: Seq<char>) -> Seq<X11Keystroke> {
    Seq::new(text.len(), |i: int| spec_x11_keystroke(text, i))
}

/// Typing every keystroke of the plan submits exactly the UTF-8 encoding of
/// the text, so a complete submission reports its UTF-8 length.
pub proof fn law_keystrokes_type_the_whole_text(text: Seq<char>)
    ensures
        keystroke_bytes(spec_x11_plan(text)) == utf8_bytes(text),
    decreases text.len(),
{
    if text.len() > 0 {
        let init = text.drop_last();
        law_keystrokes_type_the_whole_text(init);
        assert forall|i: int| 0 <= i < init.len() implies (#[trigger] spec_x11_plan(text).drop_last()[i]).utf8_len
            == spec_x11_plan(init)[i].utf8_len by {
            assert(init[i] == text[i]);
        }
        lemma_keystroke_bytes_by_lengths(spec_x11_plan(text).drop_last(), spec_x11_plan(init));
    }
}

proof fn lemma_keystroke_bytes_by_lengths(a: Seq<X11Keystroke>, b: Seq<X11Keystroke>)
    requires
        a.len() == b.len(),
        forall|i: int| 0 <= i < a.len() ==> (#[trigger] a[i]).utf8_len == b[i].utf8_len,
    ensures
        keystroke_bytes(a) == keystroke_bytes(b),
    decreases a.len(),
{
    if a.len() > 0 {
        assert forall|i: int| 0 <= i < a.len() - 1 implies (#[trigger] a.drop_last()[i]).utf8_len
            == b.drop_last()[i].utf8_len by {
            assert(a.drop_last()[i] == a[i] && b.drop_last()[i] == b[i]);
        }
        assert(a[a.len() - 1].utf8_len == b[a.len() - 1].utf8_len);
        lemma_keystroke_bytes_by_lengths(a.drop_last(), b.drop_last());
    }
}

/// How an XTEST submission that typed `submitted` UTF-8 bytes before `error`
/// and whose keymap restoration also failed with `restore_error` is reported.
pub open spec fn spec_double_failure_message(
    submitted: usize,
    error: Seq<char>,
    restore_error: Seq<char>,
) -> Seq<char> {
    "XTEST insertion failed after "@ + crate::text::decimal(submitted as nat)
        + " UTF-8 bytes and keymap restoration also failed; insertion error: "@ + error
        + "; restoration error: "@ + restore_error
}

/// The result of an XTEST submission from the result of typing (the bytes
/// typed, or the bytes typed before an error) and of restoring the scratch
/// key: a complete receipt only when both succeeded. A failed restoration
/// after a complete submission is a backend failure; a failed submission is
/// partial once any byte was typed.
pub fn x11_insertion_outcome(
    insertion: Result<usize, (usize, InsertionError)>,
    restoration: Result<(), InsertionError>,
) -> (outcome: Result<crate::insertion::InsertionReceipt, InsertionError>)
    ensures
        match (insertion, restoration) {
            (Ok(submitted), Ok(())) => outcome matches Ok(receipt) && receipt.spec_backend()
                == InsertionBackend::X11XTest && receipt.spec_submitted_utf8_bytes() == submitted,
            (Ok(_), Err(restore_error)) => outcome matches Err(e) && e.spec_kind()
                == InsertionErrorKind::BackendFailure && e.spec_message()
                == "text was submitted through XTEST, but the scratch key mapping could not be restored: "@
                + restore_error.spec_message(),
            (Err((submitted, error)), Ok(())) => outcome matches Err(e) && e.spec_kind() == (if submitted
                == 0 {
                error.spec_kind()
            } else {
                InsertionErrorKind::PartialSubmission
            }) && e.spec_message() == "XTEST insertion failed after "@ + crate::text::decimal(
                submitted as nat,
            ) + " UTF-8 bytes were submitted: "@ + error.spec_message(),
            (Err((submitted, error)), Err(restore_error)) => outcome matches Err(e) && e.spec_kind()
                == (if submitted == 0 {
                InsertionErrorKind::BackendFailure
            } else {
                InsertionErrorKind::PartialSubmission
            }) && e.spec_message() == spec_double_failure_message(
                submitted,
                error.spec_message(),
                restore_error.spec_message(),
            ),
        },
{
    match (insertion, restoration) {
        (Ok(submitted), Ok(())) => Ok(
            crate::insertion::InsertionReceipt::complete(InsertionBackend::X11XTest, submitted),
        ),
        (Ok(_), Err(restore_error)) => {
            let mut message = String::from_str(
                "text was submitted through XTEST, but the scratch key mapping could not be restored: ",
            );
            message.append(restore_error.message());
            Err(InsertionError::with_message(InsertionErrorKind::BackendFailure, message))
        },
        (Err((submitted, error)), Ok(())) => Err(x11_submission_error(submitted, error)),
        (Err((submitted, error)), Err(restore_error)) => {
            let kind = if submitted == 0 {
                InsertionErrorKind::BackendFailure
            } else {
                InsertionErrorKind::PartialSubmission
            };
            let mut message = String::from_str("XTEST insertion failed after ");
            message.append(crate::text::usize_to_decimal(submitted).as_str());
            message.append(" UTF-8 bytes and keymap restoration also failed; insertion error: ");
            message.append(error.message());
            message.append("; restoration error: ");
            message.append(restore_error.message());
            Err(InsertionError::with_message(kind, message))
        },
    }
}

/// The error a failed step of connecting to the X server is reported as.
pub open spec fn spec_x11_unavailable(error: InsertionError, message: Seq<char>) -> bool {
    error.spec_kind() == InsertionErrorKind::BackendUnavailable && error.spec_message() == message
}

/// The number of keycodes from `min_keycode` to `max_keycode`, which a
/// keyboard-mapping request must fit in one byte.
pub fn x11_keycode_count(min_keycode: u8, max_keycode: u8) -> (result: Result<u8, InsertionError>)
    ensures
        ({
            let count = if max_keycode >= min_keycode {
                max_keycode - min_keycode + 1
            } else {
                1
            };
            match result {
                Ok(c) => c == count,
                Err(e) => count > 255 && spec_x11_unavailable(
                    e,
                    "the X11 keycode range cannot be represented safely"@,
                ),
            }
        }),
{
    let span: u16 = if max_keycode >= min_keycode {
        (max_keycode - min_keycode) as u16
    } else {
        0
    };
    let count: u16 = span + 1;
    if count > 255 {
        return Err(
            InsertionError::new(
                InsertionErrorKind::BackendUnavailable,
                "the X11 keycode range cannot be represented safely",
            ),
        );
    }
    Ok(count as u8)
}

/// A keyboard mapping must give each keycode at least one keysym.
pub fn check_keysyms_per_keycode(keysyms_per_keycode: u8) -> (result: Result<(), InsertionError>)
    ensures
        match result {
            Ok(()) => keysyms_per_keycode > 0,
            Err(e) => keysyms_per_keycode == 0 && spec_x11_unavailable(
                e,
                "the X11 server returned an empty keyboard mapping width"@,
            ),
        },
{
    if keysyms_per_keycode == 0 {
        return Err(
            InsertionError::new(
                InsertionErrorKind::BackendUnavailable,
                "the X11 server returned an empty keyboard mapping width",
            ),
        );
    }
    Ok(())
}

/// Where the keysyms of `scratch_keycode` lie in a keyboard mapping that
/// starts at `min_keycode` with `keysyms_per_keycode` keysyms per keycode
/// (offsets saturating at the largest `usize`); the range must lie within the
/// `keysyms_len` keysyms returned.
pub fn scratch_keysym_range(
    min_keycode: u8,
    scratch_keycode: u8,
    keysyms_per_keycode: u8,
    keysyms_len: usize,
) -> (result: Result<(usize, usize), InsertionError>)
    requires
        scratch_keycode >= min_keycode,
    ensures
        ({
            let product = (scratch_keycode - min_keycode) * keysyms_per_keycode;
            let start = if product > usize::MAX {
                usize::MAX as int
            } else {
                product
            };
            let end = if start + keysyms_per_keycode > usize::MAX {
                usize::MAX as int
            } else {
                start + keysyms_per_keycode
            };
            match result {
                Ok((s, e)) => s == start && e == end && end <= keysyms_len,
                Err(error) => end > keysyms_len && spec_x11_unavailable(
                    error,
                    "the selected X11 scratch keycode mapping is invalid"@,
                ),
            }
        }),
{
    let index = (scratch_keycode - min_keycode) as usize;
    let width = keysyms_per_keycode as usize;
    let start = match index.checked_mul(width) {
        Some(product) => product,
        None => usize::MAX,
    };
    let end = start.saturating_add(width);
    if end > keysyms_len {
        return Err(
            InsertionError::new(
                InsertionErrorKind::BackendUnavailable,
                "the selected X11 scratch keycode mapping is invalid",
            ),
        );
    }
    Ok((start, end))
}

} // verus!
