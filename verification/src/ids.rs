//! Identifiers of users, documents and organizations, held as 128-bit values,
//! with their text form as the `uuid` crate reads and writes it.
use vstd::prelude::*;

verus! {

/// An identifier (a UUID held as its 128-bit value).
#[derive(Clone, Copy, PartialEq, Eq, Structural, Debug, Hash)]
pub struct Id {
    pub value: u128,
}

/// The lower-case hexadecimal digit of a nibble.
pub open spec fn hex_char(d: nat) -> char {
    if d < 10 {
        crate::text::digit_char(d)
    } else if d == 10 {
        'a'
    } else if d == 11 {
        'b'
    } else if d == 12 {
        'c'
    } else if d == 13 {
        'd'
    } else if d == 14 {
        'e'
    } else {
        'f'
    }
}

/// The last `count` hexadecimal digits of `v`, most significant first.
pub open spec fn hex_digits(v: nat, count: nat) -> Seq<char>
    decreases count,
{
    if count == 0 {
        Seq::empty()
    } else {
        hex_digits(v / 16, (count - 1) as nat).push(hex_char(v % 16))
    }
}

/// The hyphenated text of a UUID: 32 lower-case hexadecimal digits in groups
/// of 8, 4, 4, 4 and 12, separated by hyphens.
pub open spec fn hyphenated_text(v: u128) -> Seq<char> {
    let h = hex_digits(v as nat, 32);
    h.subrange(0, 8) + seq!['-'] + h.subrange(8, 12) + seq!['-'] + h.subrange(12, 16) + seq!['-']
        + h.subrange(16, 20) + seq!['-'] + h.subrange(20, 32)
}

/// Whether a character is a hexadecimal digit, in either case.
pub open spec fn is_hex_digit(c: char) -> bool {
    ('0' <= c && c <= '9') || ('a' <= c && c <= 'f') || ('A' <= c && c <= 'F')
}

/// The value of a hexadecimal digit.
pub open spec fn hex_digit_value(c: char) -> nat {
    if '0' <= c && c <= '9' {
        (c as int - '0' as int) as nat
    } else if 'a' <= c && c <= 'f' {
        (c as int - 'a' as int + 10) as nat
    } else {
        (c as int - 'A' as int + 10) as nat
    }
}

/// The number that a sequence of hexadecimal digits denotes.
pub open spec fn hex_number(s: Seq<char>) -> nat
    decreases s.len(),
{
    if s.len() == 0 {
        0
    } else {
        hex_number(s.drop_last()) * 16 + hex_digit_value(s.last())
    }
}

/// The 32 digits of a text in the hyphenated form, without its hyphens.
pub open spec fn hyphenated_digits(s: Seq<char>) -> Seq<char> {
    s.subrange(0, 8) + s.subrange(9, 13) + s.subrange(14, 18) + s.subrange(19, 23) + s.subrange(24, 36)
}

/// Whether a character may occur in a text that the parser reads as a UUID:
/// a hexadecimal digit, a hyphen, a brace, or a character of the `urn:uuid:`
/// prefix (of either case).
pub open spec fn is_uuid_char(c: char) -> bool {
    ||| is_hex_digit(c)
    ||| c == '-' || c == '{' || c == '}' || c == ':'
    ||| c == 'u' || c == 'U' || c == 'r' || c == 'R' || c == 'n' || c == 'N' || c == 'i' || c == 'I'
}

/// Whether every character of a text may occur in a UUID.
pub open spec fn only_uuid_chars(s: Seq<char>) -> bool {
    forall|i: int| 0 <= i < s.len() ==> is_uuid_char(#[trigger] s[i])
}

/// Whether a text is a UUID in the hyphenated form: 36 characters, hyphens at
/// positions 8, 13, 18 and 23, and hexadecimal digits (of either case)
/// everywhere else.
pub open spec fn is_hyphenated_uuid(s: Seq<char>) -> bool {
    &&& s.len() == 36
    &&& s[8] == '-' && s[13] == '-' && s[18] == '-' && s[23] == '-'
    &&& forall|i: int| 0 <= i < 32 ==> is_hex_digit(#[trigger] hyphenated_digits(s)[i])
}

/// The version number held in a UUID (bits 76 to 79).
pub open spec fn uuid_version(v: u128) -> u128 {
    (v >> 76u128) & 0xfu128
}

/// The two variant bits of a UUID (bits 62 and 63).
pub open spec fn uuid_variant(v: u128) -> u128 {
    (v >> 62u128) & 0x3u128
}

/// What `uuid::Uuid::parse_str` makes of a text: the 128-bit value, or the
/// message of the error it reports.
pub uninterp spec fn spec_parse_uuid(s: Seq<char>) -> Result<u128, Seq<char>>;

/// Calls `uuid::Uuid::parse_str` and converts its result: the value as a
/// `u128` (`Uuid::as_u128`), or the error's message (`to_string`).
/// Claimed: the result is `spec_parse_uuid` of the text; and a text in the
/// hyphenated form is read as the number its 32 digits denote (the parser
/// checks the four hyphens, then decodes the digits, most significant first,
/// into the UUID's big-endian bytes); and a text it reads holds only
/// hexadecimal digits, hyphens, braces and the characters of the `urn:uuid:`
/// prefix (each accepted form is made of those). The other forms it reads
/// (simple, braced, URN) are left to the name.
#[verifier::external_body]
fn uuid_parse_str(s: &str) -> (r: Result<u128, String>)
    ensures
        match r {
            Ok(v) => spec_parse_uuid(s@) == Ok::<u128, Seq<char>>(v) && (is_hyphenated_uuid(s@) ==> v == hex_number(
                hyphenated_digits(s@),
            )) && only_uuid_chars(s@),
            Err(m) => spec_parse_uuid(s@) == Err::<u128, Seq<char>>(m@) && !is_hyphenated_uuid(s@),
        },
{
    match uuid::Uuid::parse_str(s) {
        Ok(u) => Ok(u.as_u128()),
        Err(e) => Err(e.to_string()),
    }
}

/// Calls `uuid::Uuid::from_u128` and writes the result with `Display`.
/// Claimed: the text is the hyphenated lower-case form (`Display` delegates to
/// `LowerHex`, which formats the hyphenated form byte by byte, most
/// significant first).
#[verifier::external_body]
fn uuid_hyphenated(v: u128) -> (s: String)
    ensures
        s@ == hyphenated_text(v),
{
    uuid::Uuid::from_u128(v).to_string()
}

/// Calls `uuid::Uuid::new_v4` and returns its value (`as_u128`).
/// Claimed, from the source (the random bits are masked and the version and
/// variant bits set): version 4 and variant bits `10`. Nothing else is said of
/// the value, which is random. The call panics if the operating system cannot
/// provide random bytes.
#[verifier::external_body]
fn uuid_new_v4() -> (v: u128)
    ensures
        uuid_version(v) == 4,
        uuid_variant(v) == 2,
{
    uuid::Uuid::new_v4().as_u128()
}

/// Sixteen to the power `n`.
spec fn pow16(n: nat) -> nat
    decreases n,
{
    if n == 0 {
        1
    } else {
        16 * pow16((n - 1) as nat)
    }
}

proof fn lemma_hex_char(d: nat)
    requires
        d < 16,
    ensures
        is_hex_digit(hex_char(d)),
        hex_digit_value(hex_char(d)) == d,
{
}

proof fn lemma_hex_digits(v: nat, n: nat)
    ensures
        hex_digits(v, n).len() == n,
        forall|i: int| 0 <= i < n ==> is_hex_digit(#[trigger] hex_digits(v, n)[i]),
        hex_number(hex_digits(v, n)) == v % pow16(n),
    decreases n,
{
    if n > 0 {
        let m = (n - 1) as nat;
        lemma_hex_digits(v / 16, m);
        lemma_hex_char(v % 16);
        let h = hex_digits(v, n);
        assert(h.drop_last() =~= hex_digits(v / 16, m));
        assert forall|i: int| 0 <= i < n implies is_hex_digit(#[trigger] h[i]) by {
            if i < m {
                assert(h[i] == hex_digits(v / 16, m)[i]);
            }
        }
        assert(pow16(m) > 0) by {
            lemma_pow16_positive(m);
        }
        vstd::arithmetic::div_mod::lemma_mod_breakdown(v as int, 16, pow16(m) as int);
    }
}

proof fn lemma_pow16_positive(n: nat)
    ensures
        pow16(n) > 0,
    decreases n,
{
    if n > 0 {
        lemma_pow16_positive((n - 1) as nat);
    }
}

/// The text of an identifier is in the hyphenated form, and its digits denote
/// the identifier's value: reading back the text that `to_hyphenated_string`
/// writes gives the same identifier.
pub proof fn lemma_text_round_trip(id: Id)
    ensures
        is_hyphenated_uuid(hyphenated_text(id.value)),
        hex_number(hyphenated_digits(hyphenated_text(id.value))) == id.value,
{
    let v = id.value;
    let h = hex_digits(v as nat, 32);
    lemma_hex_digits(v as nat, 32);
    let t = hyphenated_text(v);
    assert(hyphenated_digits(t) =~= h);
    assert(pow16(32) == 0x1_0000_0000_0000_0000_0000_0000_0000_0000nat) by {
        reveal_with_fuel(pow16, 33);
    }
}

impl Id {
    /// The identifier with the given 128-bit value.
    pub fn from_u128(value: u128) -> (r: Id)
        ensures
            r.value == value,
    {
        Id { value }
    }

    /// Reads an identifier from its text; the error is the parser's message.
    /// A text in the hyphenated form is read as the number its digits denote.
    pub fn parse(s: &str) -> (r: Result<Id, String>)
        ensures
            match r {
                Ok(id) => spec_parse_uuid(s@) == Ok::<u128, Seq<char>>(id.value),
                Err(m) => spec_parse_uuid(s@) == Err::<u128, Seq<char>>(m@),
            },
            is_hyphenated_uuid(s@) ==> (r matches Ok(id) && id.value == hex_number(hyphenated_digits(s@))),
            r is Ok ==> only_uuid_chars(s@),
    {
        match uuid_parse_str(s) {
            Ok(v) => Ok(Id { value: v }),
            Err(m) => Err(m),
        }
    }

    /// The hyphenated lower-case text of the identifier.
    pub fn to_hyphenated_string(&self) -> (s: String)
        ensures
            s@ == hyphenated_text(self.value),
    {
        uuid_hyphenated(self.value)
    }

    /// A fresh random (version 4) identifier.
    pub fn new_random() -> (r: Id)
        ensures
            uuid_version(r.value) == 4,
            uuid_variant(r.value) == 2,
    {
        Id { value: uuid_new_v4() }
    }
}

} // verus!
