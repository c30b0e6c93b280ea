//! Text helpers: operating-system strings as udev hands them out, and the
//! few string operations that the seat and device logic relies on.
use vstd::prelude::*;
use vstd::utf8::{decode_utf8, valid_utf8};

verus! {

/// The bytes of a character sequence made of ASCII characters only.
pub open spec fn ascii_bytes(s: Seq<char>) -> Seq<u8> {
    s.map_values(|c: char| c as u8)
}

/// True when every character of `s` is ASCII.
pub open spec fn all_ascii(s: Seq<char>) -> bool {
    forall|i: int| 0 <= i < s.len() ==> (#[trigger] s[i] as u32) < 128
}

/// What `OsStr::to_str().unwrap_or_default()` gives back: the decoded text
/// when the bytes are valid UTF-8, the empty text otherwise.
pub open spec fn os_text(b: Seq<u8>) -> Seq<char> {
    if valid_utf8(b) {
        decode_utf8(b)
    } else {
        Seq::empty()
    }
}

/// The text that `String::from_utf8_lossy` makes of a byte sequence.
pub uninterp spec fn lossy_text(b: Seq<u8>) -> Seq<char>;

/// `haystack` holds `needle` as a contiguous run of characters.
pub open spec fn contains_text(haystack: Seq<char>, needle: Seq<char>) -> bool {
    exists|i: int|
        0 <= i && i + needle.len() <= haystack.len() && #[trigger] haystack.subrange(
            i,
            i + needle.len(),
        ) == needle
}

/// `s` begins with `prefix`.
pub open spec fn has_prefix(s: Seq<char>, prefix: Seq<char>) -> bool {
    prefix.len() <= s.len() && s.subrange(0, prefix.len() as int) == prefix
}

/// What `str::strip_prefix` gives back.
pub open spec fn strip_prefix_text(s: Seq<char>, prefix: Seq<char>) -> Option<Seq<char>> {
    if has_prefix(s, prefix) {
        Some(s.subrange(prefix.len() as int, s.len() as int))
    } else {
        None
    }
}

/// The index of the first occurrence of `c` in `s`, if any.
pub open spec fn first_index_of(s: Seq<char>, c: char) -> Option<int> {
    if exists|i: int| 0 <= i < s.len() && s[i] == c {
        Some(choose|i: int| 0 <= i < s.len() && s[i] == c && forall|j: int| 0 <= j < i ==> s[j] != c)
    } else {
        None
    }
}

/// What `s.split_once(c).map(|x| x.1).unwrap_or(s)` gives back: the text after
/// the first `c`, or all of `s` when it holds no `c`.
pub open spec fn after_first(s: Seq<char>, c: char) -> Seq<char> {
    match first_index_of(s, c) {
        Some(i) => s.subrange(i + 1, s.len() as int),
        None => s,
    }
}

/// The digit character of a value below ten.
pub open spec fn digit_char(d: int) -> char {
    ((d + 48) as u32) as char
}

/// The decimal digits of a natural number, most significant first, with no
/// leading zero (zero itself is the single digit `0`).
pub open spec fn digits_of(n: nat) -> Seq<char>
    decreases n,
{
    if n < 10 {
        seq![digit_char(n as int)]
    } else {
        digits_of(n / 10).push(digit_char((n % 10) as int))
    }
}

/// The text that `Display` writes for an integer: `-` before negative values.
pub open spec fn decimal_text(n: int) -> Seq<char> {
    if n < 0 {
        seq!['-'] + digits_of((-n) as nat)
    } else {
        digits_of(n as nat)
    }
}

/// The character is an ASCII decimal digit.
pub open spec fn is_digit(c: char) -> bool {
    '0' <= c && c <= '9'
}

/// The value of a sequence of decimal digits.
pub open spec fn digits_value(s: Seq<char>) -> int
    decreases s.len(),
{
    if s.len() == 0 {
        0
    } else {
        digits_value(s.drop_last()) * 10 + (s.last() as int - 48)
    }
}

/// The value that `str::parse::<i32>` reads from a text: an optional sign,
/// then at least one decimal digit and nothing else, in the range of `i32`.
pub open spec fn parse_i32_text(s: Seq<char>) -> Option<i32> {
    let negative = s.len() > 0 && s[0] == '-';
    let signed = s.len() > 0 && (s[0] == '-' || s[0] == '+');
    let digits = if signed {
        s.drop_first()
    } else {
        s
    };
    let value = if negative {
        -digits_value(digits)
    } else {
        digits_value(digits)
    };
    if digits.len() > 0 && (forall|i: int| 0 <= i < digits.len() ==> is_digit(#[trigger] digits[i]))
        && i32::MIN <= value <= i32::MAX {
        Some(value as i32)
    } else {
        None
    }
}

/// The lower-case text that `str::to_lowercase` makes of a text.
pub uninterp spec fn lowercase_text(s: Seq<char>) -> Seq<char>;

/// The bytes of an operating-system string (a path, a name or a property
/// value reported by udev).
pub struct OsText {
    pub bytes: Vec<u8>,
}

impl View for OsText {
    type V = Seq<u8>;

    open spec fn view(&self) -> Seq<u8> {
        self.bytes@
    }
}

/// Decodes UTF-8 bytes with `std::str::from_utf8`.
/// Claims what std documents: success exactly on valid UTF-8, and then the
/// characters the bytes encode.
#[verifier::external_body]
fn utf8_decode(bytes: &[u8]) -> (r: Option<String>)
    ensures
        r is Some <==> valid_utf8(bytes@),
        r matches Some(s) ==> s@ == decode_utf8(bytes@),
{
    match std::str::from_utf8(bytes) {
        Ok(s) => Some(s.to_string()),
        Err(_) => None,
    }
}

/// Decodes bytes with `String::from_utf8_lossy`.
/// Claims that the result is the named `lossy_text` of the bytes, and, as std
/// documents, that valid UTF-8 is decoded unchanged. What replaces invalid
/// sequences is left unsaid.
#[verifier::external_body]
fn utf8_decode_lossy(bytes: &[u8]) -> (r: String)
    ensures
        r@ == lossy_text(bytes@),
        valid_utf8(bytes@) ==> r@ == decode_utf8(bytes@),
{
    String::from_utf8_lossy(bytes).into_owned()
}

impl OsText {
    /// Wraps the given bytes.
    pub fn from_bytes(bytes: Vec<u8>) -> (r: OsText)
        ensures
            r@ == bytes@,
    {
        OsText { bytes }
    }

    /// The same bytes in a new value.
    pub fn duplicate(&self) -> (r: OsText)
        ensures
            r@ == self@,
    {
        let mut bytes: Vec<u8> = Vec::new();
        let mut i: usize = 0;
        while i < self.bytes.len()
            invariant
                i <= self.bytes.len(),
                bytes@ == self.bytes@.subrange(0, i as int),
            decreases self.bytes.len() - i,
        {
            bytes.push(self.bytes[i]);
            i = i + 1;
        }
        assert(bytes@ =~= self.bytes@);
        OsText { bytes }
    }

    /// `OsStr::to_str`: the text when the bytes are valid UTF-8.
    pub fn to_str(&self) -> (r: Option<String>)
        ensures
            r is Some <==> valid_utf8(self@),
            r matches Some(s) ==> s@ == decode_utf8(self@),
    {
        utf8_decode(self.bytes.as_slice())
    }

    /// `OsStr::to_str().unwrap_or_default()`.
    pub fn to_text(&self) -> (r: String)
        ensures
            r@ == os_text(self@),
    {
        match self.to_str() {
            Some(s) => s,
            None => String::new(),
        }
    }

    /// `OsStr::to_string_lossy`.
    pub fn to_text_lossy(&self) -> (r: String)
        ensures
            r@ == lossy_text(self@),
            valid_utf8(self@) ==> r@ == decode_utf8(self@),
    {
        utf8_decode_lossy(self.bytes.as_slice())
    }

    /// The bytes are exactly the ASCII text `s`.
    pub(crate) fn is_ascii_text(&self, s: &str) -> (r: bool)
        requires
            all_ascii(s@),
        ensures
            r == (self@ == ascii_bytes(s@)),
    {
        let n = s.unicode_len();
        if self.bytes.len() != n {
            proof {
                assert(ascii_bytes(s@).len() == s@.len());
            }
            return false;
        }
        let mut i: usize = 0;
        while i < n
            invariant
                n == s@.len(),
                self.bytes@.len() == n,
                i <= n,
                forall|j: int| 0 <= j < i ==> self.bytes@[j] == (s@[j] as u8),
            decreases n - i,
        {
            let c = s.get_char(i);
            if self.bytes[i] != c as u8 {
                assert(ascii_bytes(s@)[i as int] != self.bytes@[i as int]);
                return false;
            }
            i = i + 1;
        }
        assert(self.bytes@ =~= ascii_bytes(s@));
        true
    }
}

/// The bytes of an ASCII text.
pub(crate) fn ascii_key(s: &str) -> (r: OsText)
    requires
        all_ascii(s@),
    ensures
        r@ == ascii_bytes(s@),
{
    let n = s.unicode_len();
    let mut bytes: Vec<u8> = Vec::new();
    let mut i: usize = 0;
    while i < n
        invariant
            n == s@.len(),
            i <= n,
            bytes@.len() == i,
            forall|j: int| 0 <= j < i ==> bytes@[j] == (s@[j] as u8),
        decreases n - i,
    {
        let c = s.get_char(i);
        bytes.push(c as u8);
        i = i + 1;
    }
    assert(bytes@ =~= ascii_bytes(s@));
    OsText { bytes }
}

/// The two texts are equal.
pub fn text_eq(a: &str, b: &str) -> (r: bool)
    ensures
        r == (a@ == b@),
{
    let n = a.unicode_len();
    if b.unicode_len() != n {
        return false;
    }
    let mut i: usize = 0;
    while i < n
        invariant
            n == a@.len(),
            n == b@.len(),
            i <= n,
            forall|j: int| 0 <= j < i ==> a@[j] == b@[j],
        decreases n - i,
    {
        if a.get_char(i) != b.get_char(i) {
            return false;
        }
        i = i + 1;
    }
    assert(a@ =~= b@);
    true
}

/// `needle` occurs in `haystack` starting at character `at`.
fn matches_at(haystack: &str, needle: &str, at: usize) -> (r: bool)
    requires
        at + needle@.len() <= haystack@.len(),
        haystack@.len() <= usize::MAX,
    ensures
        r == (haystack@.subrange(at as int, at + needle@.len()) == needle@),
{
    let n = needle.unicode_len();
    let mut i: usize = 0;
    while i < n
        invariant
            n == needle@.len(),
            at + n <= haystack@.len(),
            haystack@.len() <= usize::MAX,
            i <= n,
            forall|j: int| 0 <= j < i ==> haystack@[at + j] == needle@[j],
        decreases n - i,
    {
        if haystack.get_char(at + i) != needle.get_char(i) {
            assert(haystack@.subrange(at as int, at + n)[i as int] != needle@[i as int]);
            return false;
        }
        i = i + 1;
    }
    assert(haystack@.subrange(at as int, at + n) =~= needle@);
    true
}

/// `str::contains` for a text needle.
pub fn contains(haystack: &str, needle: &str) -> (r: bool)
    ensures
        r == contains_text(haystack@, needle@),
{
    let h = haystack.unicode_len();
    let n = needle.unicode_len();
    if n > h {
        return false;
    }
    let last = h - n;
    let mut i: usize = 0;
    loop
        invariant_except_break
            h == haystack@.len(),
            n == needle@.len(),
            last == h - n,
            i <= last,
            forall|k: int| 0 <= k < i ==> #[trigger] haystack@.subrange(k, k + needle@.len()) != needle@,
        ensures
            forall|k: int| 0 <= k <= last ==> #[trigger] haystack@.subrange(k, k + needle@.len()) != needle@,
            last == haystack@.len() - needle@.len(),
        decreases last - i,
    {
        if matches_at(haystack, needle, i) {
            return true;
        }
        if i == last {
            break;
        }
        i = i + 1;
    }
    proof {
        assert forall|k: int|
            0 <= k && k + needle@.len() <= haystack@.len() implies #[trigger] haystack@.subrange(
            k,
            k + needle@.len(),
        ) != needle@ by {}
    }
    false
}

/// `str::starts_with` for a text prefix.
pub fn starts_with(s: &str, prefix: &str) -> (r: bool)
    ensures
        r == has_prefix(s@, prefix@),
{
    if prefix.unicode_len() > s.unicode_len() {
        return false;
    }
    matches_at(s, prefix, 0)
}

/// `str::strip_prefix`, giving back an owned text.
pub fn strip_prefix(s: &str, prefix: &str) -> (r: Option<String>)
    ensures
        r is Some <==> strip_prefix_text(s@, prefix@) is Some,
        r matches Some(t) ==> strip_prefix_text(s@, prefix@) == Some(t@),
{
    if starts_with(s, prefix) {
        let rest = s.substring_char(prefix.unicode_len(), s.unicode_len());
        Some(rest.to_owned())
    } else {
        None
    }
}

/// The text after the first `c` in `s`, or all of `s` when it holds no `c`
/// (`s.split_once(c).map(|x| x.1).unwrap_or(s)`).
pub fn text_after_first(s: &str, c: char) -> (r: String)
    ensures
        r@ == after_first(s@, c),
{
    let n = s.unicode_len();
    let mut i: usize = 0;
    while i < n
        invariant
            n == s@.len(),
            i <= n,
            forall|j: int| 0 <= j < i ==> s@[j] != c,
        decreases n - i,
    {
        if s.get_char(i) == c {
            proof {
                let k = first_index_of(s@, c);
                assert(s@[i as int] == c);
                let w = choose|w: int| 0 <= w < s@.len() && s@[w] == c && forall|j: int| 0 <= j < w ==> s@[j] != c;
                assert(w == i) by {
                    if w < i {
                    } else if w > i {
                        assert(s@[i as int] != c);
                    }
                }
            }
            return s.substring_char(i + 1, n).to_owned();
        }
        i = i + 1;
    }
    s.to_owned()
}

/// Parses a decimal `i32` with `str::parse`.
/// Claims what std documents for `i32::from_str`: an optional sign followed
/// by decimal digits only, with the value in range; anything else fails.
#[verifier::external_body]
pub(crate) fn parse_i32(s: &str) -> (r: Option<i32>)
    ensures
        r == parse_i32_text(s@),
{
    s.parse::<i32>().ok()
}

/// Writes an `i32` with `ToString`.
/// Claims what std documents for `Display` on integers: the decimal digits,
/// without leading zeros, with `-` before a negative value.
#[verifier::external_body]
pub(crate) fn i32_text(n: i32) -> (r: String)
    ensures
        r@ == decimal_text(n as int),
{
    n.to_string()
}

/// Lower-cases a text with `str::to_lowercase`.
/// Claims only that the result is the named `lowercase_text` of the input.
#[verifier::external_body]
pub(crate) fn to_lowercase(s: &str) -> (r: String)
    ensures
        r@ == lowercase_text(s@),
{
    s.to_lowercase()
}

/// The title-case text that `convert_case` makes of a text
/// (`ccase!(title, s)`).
pub uninterp spec fn title_case_text(s: Seq<char>) -> Seq<char>;

/// Converts a text to title case with `convert_case`, as `ccase!(title, s)`
/// expands: a default `Converter` set to `Case::Title`.
/// Claims only that the result is the named `title_case_text` of the input.
#[verifier::external_body]
pub(crate) fn title_case(s: &str) -> (r: String)
    ensures
        r@ == title_case_text(s@),
{
    convert_case::Converter::new().to_case(convert_case::Case::Title).convert(s)
}

} // verus!
