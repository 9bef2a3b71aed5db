//! Layout identifiers, their canonical eight-digit locale strings, and the
//! catalog of language names.
use vstd::prelude::*;
use vstd::string::*;

verus! {

/// A 16-bit locale identifier naming a keyboard layout.
#[derive(Clone, Copy, Debug, PartialEq, Eq, Structural)]
pub struct LayoutId {
    pub code: u16,
}

/// Number of hexadecimal digits in a locale string.
pub const LOCALE_DIGITS: usize = 8;

pub open spec fn pow16(n: nat) -> nat
    decreases n,
{
    if n == 0 {
        1
    } else {
        16 * pow16((n - 1) as nat)
    }
}

/// The upper-case hexadecimal digit of `d` (for `d < 16`).
pub open spec fn hex_char(d: nat) -> char {
    if d < 10 {
        (48 + d) as char
    } else {
        (55 + d) as char
    }
}

/// The value of a hexadecimal digit, either case.
pub open spec fn digit_value(c: char) -> Option<nat> {
    if '0' <= c && c <= '9' {
        Some((c as nat - 48) as nat)
    } else if 'A' <= c && c <= 'F' {
        Some((c as nat - 55) as nat)
    } else if 'a' <= c && c <= 'f' {
        Some((c as nat - 87) as nat)
    } else {
        None
    }
}

/// The `n` low hexadecimal digits of `v`, most significant first.
pub open spec fn hex_digits(v: nat, n: nat) -> Seq<char>
    decreases n,
{
    if n == 0 {
        Seq::empty()
    } else {
        hex_digits(v / 16, (n - 1) as nat).push(hex_char(v % 16))
    }
}

/// The number that a string of hexadecimal digits spells, if it is one.
pub open spec fn hex_value(s: Seq<char>) -> Option<nat>
    decreases s.len(),
{
    if s.len() == 0 {
        Some(0)
    } else {
        match (hex_value(s.drop_last()), digit_value(s.last())) {
            (Some(a), Some(d)) => Some(a * 16 + d),
            _ => None,
        }
    }
}

/// The canonical locale string of a layout code: eight upper-case hex digits.
pub open spec fn locale_chars(code: nat) -> Seq<char> {
    hex_digits(code, LOCALE_DIGITS as nat)
}

/// The code that a locale string names: exactly eight hex digits.
pub open spec fn locale_code(s: Seq<char>) -> Option<nat> {
    if s.len() == LOCALE_DIGITS {
        hex_value(s)
    } else {
        None
    }
}

proof fn lemma_digit_round_trip(d: nat)
    requires
        d < 16,
    ensures
        digit_value(hex_char(d)) == Some(d),
{
}

proof fn lemma_hex_round_trip(v: nat, n: nat)
    requires
        v < pow16(n),
    ensures
        hex_value(hex_digits(v, n)) == Some(v),
    decreases n,
{
    if n > 0 {
        let p = pow16((n - 1) as nat);
        assert(v / 16 < p) by (nonlinear_arith)
            requires
                v < 16 * p,
        ;
        lemma_hex_round_trip(v / 16, (n - 1) as nat);
        let s = hex_digits(v, n);
        assert(s.drop_last() =~= hex_digits(v / 16, (n - 1) as nat));
        lemma_digit_round_trip(v % 16);
        assert((v / 16) * 16 + v % 16 == v) by (nonlinear_arith);
    }
}

proof fn lemma_hex_digits_len(v: nat, n: nat)
    ensures
        hex_digits(v, n).len() == n,
    decreases n,
{
    if n > 0 {
        lemma_hex_digits_len(v / 16, (n - 1) as nat);
    }
}

/// Encoding a 16-bit layout code as its locale string and reading the string
/// back gives the code again.
pub proof fn lemma_locale_round_trip(code: u16)
    ensures
        locale_code(locale_chars(code as nat)) == Some(code as nat),
{
    lemma_pow16_eight();
    lemma_hex_round_trip(code as nat, 8);
    lemma_hex_digits_len(code as nat, 8);
}

/// Relies on String::push: appends one character to the end.
#[verifier::external_body]
fn push_char(s: &mut String, c: char)
    ensures
        final(s)@ == old(s)@.push(c),
{
    s.push(c)
}

fn hex_digit_char(d: u32) -> (c: char)
    requires
        d < 16,
    ensures
        c == hex_char(d as nat),
{
    if d < 10 {
        ((48 + d) as u8) as char
    } else {
        ((55 + d) as u8) as char
    }
}

fn write_hex_digits(v: u32, n: usize) -> (s: String)
    ensures
        s@ == hex_digits(v as nat, n as nat),
    decreases n,
{
    if n == 0 {
        String::new()
    } else {
        let mut s = write_hex_digits(v / 16, n - 1);
        push_char(&mut s, hex_digit_char(v % 16));
        s
    }
}

fn read_digit(c: char) -> (r: Option<u64>)
    ensures
        match digit_value(c) {
            Some(d) => r == Some(d as u64),
            None => r is None,
        },
{
    if '0' <= c && c <= '9' {
        Some(c as u64 - 48)
    } else if 'A' <= c && c <= 'F' {
        Some(c as u64 - 55)
    } else if 'a' <= c && c <= 'f' {
        Some(c as u64 - 87)
    } else {
        None
    }
}

proof fn lemma_invalid_prefix(s: Seq<char>, i: int)
    requires
        0 <= i <= s.len(),
        hex_value(s.subrange(0, i)) is None,
    ensures
        hex_value(s) is None,
    decreases s.len() - i,
{
    if i == s.len() {
        assert(s.subrange(0, i) =~= s);
    } else {
        assert(s.subrange(0, i + 1).drop_last() =~= s.subrange(0, i));
        lemma_invalid_prefix(s, i + 1);
    }
}

impl LayoutId {
    /// The canonical locale string of this layout: its code as eight
    /// upper-case hexadecimal digits.
    pub fn locale_string(&self) -> (s: String)
        ensures
            s@ == locale_chars(self.code as nat),
    {
        write_hex_digits(self.code as u32, LOCALE_DIGITS)
    }

    /// The catalog's name of this layout's language (such as `en-US`).
    pub fn language_name(&self) -> (r: Option<String>)
        ensures
            match r {
                Some(s) => catalog_name(self.code as u32) == Some(s@),
                None => catalog_name(self.code as u32) is None,
            },
    {
        lookup_language_name(self.code as u32)
    }
}

/// Reads a locale string back into its numeric code: `None` unless the string
/// is exactly eight hexadecimal digits.
pub fn parse_locale_string(s: &str) -> (r: Option<u32>)
    ensures
        match locale_code(s@) {
            Some(v) => r == Some(v as u32),
            None => r is None,
        },
{
    let len = s.unicode_len();
    if len != LOCALE_DIGITS {
        return None;
    }
    let mut acc: u64 = 0;
    let mut i: usize = 0;
    while i < len
        invariant
            len == s@.len() == 8,
            i <= len,
            hex_value(s@.subrange(0, i as int)) == Some(acc as nat),
            acc < pow16(i as nat),
        decreases len - i,
    {
        let c = s.get_char(i);
        assert(s@.subrange(0, i + 1).drop_last() =~= s@.subrange(0, i as int));
        match read_digit(c) {
            Some(d) => {
                assert(pow16(i as nat) <= pow16(8)) by {
                    lemma_pow16_mono(i as nat, 8);
                }
                proof {
                    lemma_pow16_eight();
                }
                let ghost p = pow16(i as nat);
                assert(acc * 16 + d < 16 * p) by (nonlinear_arith)
                    requires
                        acc < p,
                        d < 16,
                ;
                acc = acc * 16 + d;
                i = i + 1;
            },
            None => {
                proof {
                    lemma_invalid_prefix(s@, i + 1);
                }
                return None;
            },
        }
    }
    assert(s@.subrange(0, 8) =~= s@);
    proof {
        lemma_pow16_eight();
    }
    Some(acc as u32)
}

/// The LCID that the language catalog gives a language name, if it knows it.
pub uninterp spec fn catalog_code(name: Seq<char>) -> Option<u32>;

/// The language name that the catalog gives an LCID, if it knows it.
pub uninterp spec fn catalog_name(code: u32) -> Option<Seq<char>>;

/// Relies on lcid's `TryFrom<&str> for &LanguageId`: looks a language name up
/// in the crate's table; the result depends on the name alone.
#[verifier::external_body]
fn lookup_language_code(name: &str) -> (r: Option<u32>)
    ensures
        r == catalog_code(name@),
{
    let found: Result<&lcid::LanguageId, lcid::NameLookupError> = std::convert::TryFrom::try_from(
        name,
    );
    found.ok().map(|l| l.lcid)
}

/// Relies on lcid's `TryFrom<u32> for &LanguageId`: looks an LCID up in the
/// crate's table and gives the language's name; the result depends on the
/// code alone.
#[verifier::external_body]
fn lookup_language_name(code: u32) -> (r: Option<String>)
    ensures
        match r {
            Some(s) => catalog_name(code) == Some(s@),
            None => catalog_name(code) is None,
        },
{
    let found: Result<&lcid::LanguageId, lcid::LcidLookupError> = std::convert::TryFrom::try_from(
        code,
    );
    found.ok().map(|l| l.name.to_string())
}

/// The layout that a catalog code stands for: a code that fits in 16 bits.
pub open spec fn layout_of_code(code: Option<u32>) -> Option<LayoutId> {
    match code {
        Some(c) => if c < 0x1_0000 {
            Some(LayoutId { code: c as u16 })
        } else {
            None
        },
        None => None,
    }
}

/// The layout that the catalog resolves a language name to.
pub open spec fn layout_of_language(name: Seq<char>) -> Option<LayoutId> {
    layout_of_code(catalog_code(name))
}

/// Turns a code found in the catalog into a layout; a code wider than 16 bits
/// names no keyboard layout.
pub fn layout_from_code(code: Option<u32>) -> (r: Option<LayoutId>)
    ensures
        r == layout_of_code(code),
{
    match code {
        Some(c) => if c < 0x1_0000 {
            Some(LayoutId { code: c as u16 })
        } else {
            None
        },
        None => None,
    }
}

/// Resolves a language name (such as `en-US`) to its layout through the
/// catalog; `None` for a name the catalog does not know.
pub fn layout_for_language(name: &str) -> (r: Option<LayoutId>)
    ensures
        r == layout_of_language(name@),
{
    layout_from_code(lookup_language_code(name))
}

proof fn lemma_pow16_eight()
    ensures
        pow16(8) == 0x1_0000_0000,
{
    reveal_with_fuel(pow16, 9);
}

proof fn lemma_pow16_mono(a: nat, b: nat)
    requires
        a <= b,
    ensures
        pow16(a) <= pow16(b),
    decreases b,
{
    if a < b {
        lemma_pow16_mono(a, (b - 1) as nat);
    }
}

} // verus!
