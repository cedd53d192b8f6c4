//! Character- and byte-level helpers over `&str`.
//!
//! Character-level meanings are stated over `Seq<char>` (the view of a string);
//! byte-level meanings over the UTF-8 encoding of that view (`spec_bytes`).

use vstd::prelude::*;
use vstd::string::StringSliceAdditionalSpecFns;

verus! {

/// Unicode `White_Space` (the set that `char::is_whitespace` tests).
pub open spec fn is_unicode_whitespace(c: char) -> bool {
    let u = c as u32;
    ||| 0x09 <= u <= 0x0D
    ||| u == 0x20
    ||| u == 0x85
    ||| u == 0xA0
    ||| u == 0x1680
    ||| 0x2000 <= u <= 0x200A
    ||| u == 0x2028
    ||| u == 0x2029
    ||| u == 0x202F
    ||| u == 0x205F
    ||| u == 0x3000
}

/// `s` without its leading whitespace.
pub open spec fn trim_start(s: Seq<char>) -> Seq<char>
    decreases s.len(),
{
    if s.len() > 0 && is_unicode_whitespace(s[0]) {
        trim_start(s.drop_first())
    } else {
        s
    }
}

/// `s` without its trailing whitespace.
pub open spec fn trim_end(s: Seq<char>) -> Seq<char>
    decreases s.len(),
{
    if s.len() > 0 && is_unicode_whitespace(s.last()) {
        trim_end(s.drop_last())
    } else {
        s
    }
}

/// `s` without leading and trailing whitespace (what `str::trim` returns).
pub open spec fn spec_trim(s: Seq<char>) -> Seq<char> {
    trim_end(trim_start(s))
}

/// Whether `s` holds only whitespace (or nothing), i.e. trims to nothing.
pub open spec fn is_blank(s: Seq<char>) -> bool {
    spec_trim(s).len() == 0
}

/// Number of bytes in the UTF-8 encoding of `s` (what `str::len` returns).
pub open spec fn byte_len(s: Seq<char>) -> nat {
    vstd::utf8::encode_utf8(s).len()
}

/// The ASCII lower-case form of a byte (what `u8::to_ascii_lowercase` returns).
pub open spec fn ascii_lower_byte(b: u8) -> u8 {
    if 0x41 <= b <= 0x5A { (b + 0x20) as u8 } else { b }
}

/// ASCII case-insensitive equality of two strings, byte by byte over their
/// UTF-8 encodings (what `str::eq_ignore_ascii_case` decides).
pub open spec fn eq_ignore_ascii_case_spec(a: Seq<char>, b: Seq<char>) -> bool {
    let x = vstd::utf8::encode_utf8(a);
    let y = vstd::utf8::encode_utf8(b);
    &&& x.len() == y.len()
    &&& forall|i: int| 0 <= i < x.len() ==> ascii_lower_byte(x[i]) == ascii_lower_byte(y[i])
}

/// Byte classes that the registry's identifiers are drawn from.
#[derive(Debug, Clone, Copy, PartialEq, Eq, Structural)]
pub enum ByteClass {
    /// ASCII letters, digits, `-`, `_` and `.`.
    PackageName,
    /// ASCII letters, digits, `-` and `_` (URL-safe tokens).
    UrlSafeToken,
    /// ASCII digits and `a` to `f`.
    LowerHex,
}

pub open spec fn is_ascii_alphanumeric(b: u8) -> bool {
    ||| 0x30 <= b <= 0x39
    ||| 0x41 <= b <= 0x5A
    ||| 0x61 <= b <= 0x7A
}

/// Whether byte `b` belongs to `class`.
pub open spec fn in_class(class: ByteClass, b: u8) -> bool {
    match class {
        ByteClass::PackageName => is_ascii_alphanumeric(b) || b == 0x2D || b == 0x5F || b == 0x2E,
        ByteClass::UrlSafeToken => is_ascii_alphanumeric(b) || b == 0x2D || b == 0x5F,
        ByteClass::LowerHex => (0x30 <= b <= 0x39) || (0x61 <= b <= 0x66),
    }
}

/// Whether every byte of the UTF-8 encoding of `s` belongs to `class`.
pub open spec fn all_bytes_in(s: Seq<char>, class: ByteClass) -> bool {
    let x = vstd::utf8::encode_utf8(s);
    forall|i: int| 0 <= i < x.len() ==> in_class(class, #[trigger] x[i])
}

/// An ASCII character of a string appears, as its own byte, in the string's
/// UTF-8 encoding.
pub proof fn lemma_ascii_char_is_encoded(s: Seq<char>, i: int)
    requires
        0 <= i < s.len(),
        (s[i] as u32) < 0x80,
    ensures
        exists|j: int|
            0 <= j < vstd::utf8::encode_utf8(s).len() && vstd::utf8::encode_utf8(s)[j] == (
            s[i] as u32) as u8,
    decreases s.len(),
{
    let x = vstd::utf8::encode_utf8(s);
    let head = vstd::utf8::encode_scalar(s[0] as u32);
    let rest = vstd::utf8::encode_utf8(s.drop_first());
    assert(x == head + rest);
    if i == 0 {
        let u = s[0] as u32;
        assert((u & 0x7F) as u8 == u as u8) by (bit_vector)
            requires
                u < 0x80,
        ;
        assert(x[0] == (s[i] as u32) as u8);
    } else {
        lemma_ascii_char_is_encoded(s.drop_first(), i - 1);
        let j = choose|j: int| 0 <= j < rest.len() && rest[j] == (s[i] as u32) as u8;
        assert(x[head.len() + j] == rest[j]);
    }
}

/// The ASCII lower-case form of a character (`char::to_ascii_lowercase`).
pub open spec fn ascii_lower_char(c: char) -> char {
    if 'A' <= c <= 'Z' { ((c as u32) + 0x20) as char } else { c }
}

/// The ASCII lower-case form of every character of `s`.
pub open spec fn ascii_lowercase(s: Seq<char>) -> Seq<char> {
    s.map_values(|c: char| ascii_lower_char(c))
}

/// The Unicode lower-case form of `s`, as `str::to_lowercase` computes it
/// (by the Unicode `Lowercase` mapping, with final-sigma handling).
pub uninterp spec fn unicode_lowercase(s: Seq<char>) -> Seq<char>;

/// Calls `str::to_lowercase`; its result is named [`unicode_lowercase`] of the
/// argument. Of that result only one fact is claimed: on ASCII text the
/// Unicode `Lowercase` mapping is the ASCII one (`A`..`Z` to `a`..`z`, every
/// other ASCII character unchanged).
#[verifier::external_body]
pub(crate) fn to_lowercase(s: &str) -> (r: String)
    ensures
        r@ == unicode_lowercase(s@),
        vstd::utf8::is_ascii_chars(s@) ==> r@ == ascii_lowercase(s@),
{
    s.to_lowercase()
}

/// Whether `c` is printed unchanged inside a `Debug`-quoted string: printable
/// ASCII other than the quotes and the backslash.
pub open spec fn is_plain_debug_char(c: char) -> bool {
    ' ' <= c <= '~' && c != '"' && c != '\\' && c != '\''
}

/// The `Debug` rendering of a string (`format!("{:?}", s)`): the text between
/// double quotes, with characters escaped by `char::escape_debug` rules.
pub uninterp spec fn debug_quoted(s: Seq<char>) -> Seq<char>;

/// Calls `format!("{:?}", s)`; its result is named [`debug_quoted`] of the
/// argument. Of that result only one fact is claimed: a string of plain
/// printable ASCII is rendered as itself between double quotes.
#[verifier::external_body]
pub(crate) fn debug_string(s: &str) -> (r: String)
    ensures
        r@ == debug_quoted(s@),
        (forall|i: int| 0 <= i < s@.len() ==> is_plain_debug_char(#[trigger] s@[i])) ==> r@
            == seq!['"'] + s@ + seq!['"'],
{
    format!("{:?}", s)
}

/// The decimal digit character for `d` (`0` to `9`).
pub open spec fn digit_char(d: nat) -> char {
    ((d + 0x30) as u32) as char
}

/// The decimal digits of `n`, without leading zeros (`0` for zero).
pub open spec fn decimal_digits(n: nat) -> Seq<char>
    decreases n,
{
    if n < 10 {
        seq![digit_char(n)]
    } else {
        decimal_digits(n / 10) + seq![digit_char(n % 10)]
    }
}

/// The decimal rendering of `n` (what `Display` prints for an integer): its
/// digits, after a `-` when it is negative.
pub open spec fn decimal(n: int) -> Seq<char> {
    if n < 0 { seq!['-'] + decimal_digits((-n) as nat) } else { decimal_digits(n as nat) }
}

fn digit_str(d: u128) -> (r: &'static str)
    requires
        d < 10,
    ensures
        r@ == seq![digit_char(d as nat)],
{
    proof {
        reveal_strlit("0");
        reveal_strlit("1");
        reveal_strlit("2");
        reveal_strlit("3");
        reveal_strlit("4");
        reveal_strlit("5");
        reveal_strlit("6");
        reveal_strlit("7");
        reveal_strlit("8");
        reveal_strlit("9");
    }
    let r = if d == 0 {
        "0"
    } else if d == 1 {
        "1"
    } else if d == 2 {
        "2"
    } else if d == 3 {
        "3"
    } else if d == 4 {
        "4"
    } else if d == 5 {
        "5"
    } else if d == 6 {
        "6"
    } else if d == 7 {
        "7"
    } else if d == 8 {
        "8"
    } else {
        "9"
    };
    assert(r@ =~= seq![digit_char(d as nat)]);
    r
}

fn append_digits(out: &mut String, n: u128)
    ensures
        final(out)@ == old(out)@ + decimal_digits(n as nat),
    decreases n,
{
    if n >= 10 {
        append_digits(out, n / 10);
    }
    out.append(digit_str(n % 10));
    proof {
        assert(old(out)@ + decimal_digits(n as nat) =~= (if n >= 10 {
            old(out)@ + decimal_digits((n / 10) as nat)
        } else {
            old(out)@
        }) + seq![digit_char((n % 10) as nat)]);
    }
}

/// The decimal rendering of `n`.
pub fn decimal_string(n: i128) -> (r: String)
    requires
        n > i128::MIN,
    ensures
        r@ == decimal(n as int),
{
    let mut out = String::new();
    if n < 0 {
        out.append("-");
        proof {
            reveal_strlit("-");
        }
        append_digits(&mut out, (-n) as u128);
    } else {
        append_digits(&mut out, n as u128);
    }
    proof {
        if n < 0 {
            assert(out@ =~= seq!['-'] + decimal_digits((-n) as nat));
        } else {
            assert(out@ =~= decimal_digits(n as nat));
        }
    }
    out
}

/// Whether `c` is Unicode whitespace (`char::is_whitespace`).
pub fn is_whitespace(c: char) -> (r: bool)
    ensures
        r == is_unicode_whitespace(c),
{
    let u = c as u32;
    (0x09 <= u && u <= 0x0D) || u == 0x20 || u == 0x85 || u == 0xA0 || u == 0x1680 || (0x2000
        <= u && u <= 0x200A) || u == 0x2028 || u == 0x2029 || u == 0x202F || u == 0x205F || u
        == 0x3000
}

/// Whether `c` occurs in `s`.
pub fn contains_char(s: &str, c: char) -> (r: bool)
    ensures
        r == s@.contains(c),
{
    let n = s.unicode_len();
    let mut i: usize = 0;
    while i < n
        invariant
            n == s@.len(),
            i <= n,
            forall|j: int| 0 <= j < i ==> s@[j] != c,
        decreases n - i,
    {
        if s.get_char(i) == c {
            return true;
        }
        i = i + 1;
    }
    false
}

/// Whether some character of `s` is whitespace.
pub fn contains_whitespace(s: &str) -> (r: bool)
    ensures
        r == exists|i: int| 0 <= i < s@.len() && is_unicode_whitespace(#[trigger] s@[i]),
{
    let n = s.unicode_len();
    let mut i: usize = 0;
    while i < n
        invariant
            n == s@.len(),
            i <= n,
            forall|j: int| 0 <= j < i ==> !is_unicode_whitespace(#[trigger] s@[j]),
        decreases n - i,
    {
        if is_whitespace(s.get_char(i)) {
            return true;
        }
        i = i + 1;
    }
    false
}

/// `s` with leading and trailing Unicode whitespace removed (`str::trim`).
pub fn trim(s: &str) -> (r: &str)
    ensures
        r@ == spec_trim(s@),
{
    let n = s.unicode_len();
    let mut start: usize = 0;
    assert(s@.subrange(0, n as int) =~= s@);
    while start < n && is_whitespace(s.get_char(start))
        invariant
            n == s@.len(),
            start <= n,
            trim_start(s@) == trim_start(s@.subrange(start as int, n as int)),
        decreases n - start,
    {
        assert(s@.subrange(start as int, n as int).drop_first() =~= s@.subrange(
            start + 1,
            n as int,
        ));
        start = start + 1;
    }
    assert(trim_start(s@) == s@.subrange(start as int, n as int));
    let mut end: usize = n;
    while end > start && is_whitespace(s.get_char(end - 1))
        invariant
            n == s@.len(),
            start <= end <= n,
            trim_end(s@.subrange(start as int, n as int)) == trim_end(
                s@.subrange(start as int, end as int),
            ),
        decreases end - start,
    {
        assert(s@.subrange(start as int, end as int).drop_last() =~= s@.subrange(
            start as int,
            end - 1,
        ));
        end = end - 1;
    }
    assert(trim_end(s@.subrange(start as int, end as int)) == s@.subrange(
        start as int,
        end as int,
    ));
    s.substring_char(start, end)
}

/// Whether two strings are equal.
pub fn str_eq(a: &str, b: &str) -> (r: bool)
    ensures
        r == (a@ == b@),
{
    let x = a.as_bytes();
    let y = b.as_bytes();
    if x.len() != y.len() {
        return false;
    }
    let mut i: usize = 0;
    while i < x.len()
        invariant
            x@ == a.spec_bytes(),
            y@ == b.spec_bytes(),
            x@.len() == y@.len(),
            i <= x@.len(),
            forall|j: int| 0 <= j < i ==> x@[j] == y@[j],
        decreases x@.len() - i,
    {
        if x[i] != y[i] {
            return false;
        }
        i = i + 1;
    }
    proof {
        assert(x@ =~= y@);
        vstd::utf8::encode_utf8_decode_utf8(a@);
        vstd::utf8::encode_utf8_decode_utf8(b@);
    }
    true
}

/// ASCII case-insensitive equality of two strings (`str::eq_ignore_ascii_case`).
pub fn eq_ignore_ascii_case(a: &str, b: &str) -> (r: bool)
    ensures
        r == eq_ignore_ascii_case_spec(a@, b@),
{
    let x = a.as_bytes();
    let y = b.as_bytes();
    if x.len() != y.len() {
        return false;
    }
    let mut i: usize = 0;
    while i < x.len()
        invariant
            x@ == a.spec_bytes(),
            y@ == b.spec_bytes(),
            x@.len() == y@.len(),
            i <= x@.len(),
            forall|j: int| 0 <= j < i ==> ascii_lower_byte(x@[j]) == ascii_lower_byte(y@[j]),
        decreases x@.len() - i,
    {
        let p = x[i];
        let q = y[i];
        let lp = if 0x41 <= p && p <= 0x5A { p + 0x20 } else { p };
        let lq = if 0x41 <= q && q <= 0x5A { q + 0x20 } else { q };
        if lp != lq {
            return false;
        }
        i = i + 1;
    }
    true
}

/// Whether every byte of the UTF-8 encoding of `s` belongs to `class`.
pub fn bytes_all_in(s: &str, class: ByteClass) -> (r: bool)
    ensures
        r == all_bytes_in(s@, class),
{
    let x = s.as_bytes();
    let mut i: usize = 0;
    while i < x.len()
        invariant
            x@ == s.spec_bytes(),
            i <= x@.len(),
            forall|j: int| 0 <= j < i ==> in_class(class, #[trigger] x@[j]),
        decreases x@.len() - i,
    {
        let b = x[i];
        let ok = match class {
            ByteClass::PackageName => (0x30 <= b && b <= 0x39) || (0x41 <= b && b <= 0x5A) || (0x61
                <= b && b <= 0x7A) || b == 0x2D || b == 0x5F || b == 0x2E,
            ByteClass::UrlSafeToken => (0x30 <= b && b <= 0x39) || (0x41 <= b && b <= 0x5A) || (
            0x61 <= b && b <= 0x7A) || b == 0x2D || b == 0x5F,
            ByteClass::LowerHex => (0x30 <= b && b <= 0x39) || (0x61 <= b && b <= 0x66),
        };
        if !ok {
            return false;
        }
        i = i + 1;
    }
    true
}

/// The first `n` characters of `s` (all of `s` when it is shorter).
pub fn take_chars(s: &str, n: usize) -> (r: &str)
    ensures
        r@ == (if s@.len() <= n { s@ } else { s@.take(n as int) }),
{
    let len = s.unicode_len();
    let end = if len <= n { len } else { n };
    let r = s.substring_char(0, end);
    proof {
        if len <= n {
            assert(r@ =~= s@);
        }
    }
    r
}

} // verus!
