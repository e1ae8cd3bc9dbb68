use crate::error::SyncError;
use vstd::prelude::*;
use vstd::string::*;

verus! {

/// The error type of the repository-reading library, carried through unopened.
#[verifier::external_type_specification]
#[verifier::external_body]
pub struct ExGitError(git2::Error);

/// Number of bytes in a content hash.
pub const OID_LEN: usize = 20;

/// Number of characters in the text form of a content hash.
pub const OID_HEX_LEN: usize = 40;

/// A lowercase hexadecimal digit.
pub open spec fn is_lower_hex(c: char) -> bool {
    ('0' <= c && c <= '9') || ('a' <= c && c <= 'f')
}

/// The number a lowercase hexadecimal digit stands for.
pub open spec fn hex_value(c: char) -> int {
    if '0' <= c && c <= '9' {
        c as int - '0' as int
    } else {
        c as int - 'a' as int + 10
    }
}

/// The lowercase hexadecimal digit for a number below sixteen.
pub open spec fn hex_digit(v: int) -> char {
    if v < 10 {
        (('0' as int + v) as u8) as char
    } else {
        (('a' as int + v - 10) as u8) as char
    }
}

/// Well-formed hash text: exactly forty lowercase hexadecimal digits.
pub open spec fn is_oid_text(s: Seq<char>) -> bool {
    &&& s.len() == 40
    &&& forall|i: int| 0 <= i < 40 ==> is_lower_hex(#[trigger] s[i])
}

/// The twenty bytes that well-formed hash text denotes, two digits a byte,
/// the high digit first.
pub open spec fn oid_bytes_of(s: Seq<char>) -> Seq<u8> {
    Seq::new(20, |i: int| (16 * hex_value(s[2 * i]) + hex_value(s[2 * i + 1])) as u8)
}

/// The text form of twenty bytes.
pub open spec fn oid_text_of(b: Seq<u8>) -> Seq<char> {
    Seq::new(
        40,
        |i: int|
            if i % 2 == 0 {
                hex_digit(b[i / 2] as int / 16)
            } else {
                hex_digit(b[i / 2] as int % 16)
            },
    )
}

/// The bytes of the zero sentinel, which stands for "absent".
pub open spec fn zero_bytes() -> Seq<u8> {
    Seq::new(20, |i: int| 0u8)
}

/// A content hash: the identity of a commit.
#[derive(Debug, Clone, Copy, PartialEq, Eq)]
pub struct SqlOid(pub [u8; 20]);

impl View for SqlOid {
    type V = Seq<u8>;

    open spec fn view(&self) -> Seq<u8> {
        self.0@
    }
}

/// `git2::Oid::from_str`, followed by `Oid::as_bytes`. On forty hexadecimal
/// digits the parse succeeds and yields twenty bytes, each holding two of the
/// digits, the high digit first. Nothing is claimed of any other text.
#[verifier::external_body]
fn git_oid_from_str(s: &str) -> (parsed: Result<Vec<u8>, git2::Error>)
    ensures
        is_oid_text(s@) ==> parsed is Ok,
        parsed matches Ok(bytes) ==> is_oid_text(s@) ==> bytes@ == oid_bytes_of(s@),
{
    git2::Oid::from_str(s).map(|oid| oid.as_bytes().to_vec())
}

/// `git2::Oid::from_bytes`, followed by the `Display` of `git2::Oid`: the
/// twenty bytes written as forty lowercase hexadecimal digits, the high digit
/// of each byte first.
#[verifier::external_body]
fn git_oid_to_string(bytes: &[u8; 20]) -> (text: String)
    ensures
        text@ == oid_text_of(bytes@),
{
    git2::Oid::from_bytes(bytes).map(|oid| oid.to_string()).unwrap_or_default()
}

/// Whether a byte is the code of a lowercase hexadecimal digit.
fn is_lower_hex_byte(b: u8) -> (r: bool)
    ensures
        r == is_lower_hex(b as char),
{
    (0x30 <= b && b <= 0x39) || (0x61 <= b && b <= 0x66)
}

/// Whether a text is well-formed hash text.
pub fn is_valid_hex(s: &str) -> (r: bool)
    ensures
        r == is_oid_text(s@),
{
    if !s.is_ascii() {
        proof {
            if is_oid_text(s@) {
                assert forall|i: int| 0 <= i < s@.len() implies '\0' <= #[trigger] s@[i]
                    <= '\u{7f}' by {
                    assert(is_lower_hex(s@[i]));
                }
            }
        }
        return false;
    }
    let bytes = s.as_bytes();
    proof {
        is_ascii_spec_bytes(s);
    }
    if bytes.len() != OID_HEX_LEN {
        return false;
    }
    let mut i: usize = 0;
    while i < OID_HEX_LEN
        invariant
            i <= 40,
            bytes@.len() == 40,
            s@.len() == 40,
            is_ascii(s),
            bytes@ == Seq::new(s@.len(), |k: int| s@[k] as u8),
            forall|k: int| 0 <= k < i ==> is_lower_hex(#[trigger] s@[k]),
        decreases 40 - i,
    {
        if !is_lower_hex_byte(bytes[i]) {
            proof {
                let c = s@[i as int];
                assert('\0' <= c <= '\u{7f}');
                assert(bytes@[i as int] == c as u8);
                assert((c as u8) as char == c);
                assert(!is_lower_hex(c));
            }
            return false;
        }
        proof {
            let c = s@[i as int];
            assert('\0' <= c <= '\u{7f}');
            assert(bytes@[i as int] == c as u8);
            assert((c as u8) as char == c);
        }
        i += 1;
    }
    true
}

impl SqlOid {
    /// The zero sentinel: the hash that stands for "absent".
    pub fn zero() -> (oid: SqlOid)
        ensures
            oid@ == zero_bytes(),
    {
        let oid = SqlOid([0u8; 20]);
        assert(oid@ =~= zero_bytes());
        oid
    }

    /// The hash with the given bytes.
    pub fn from_bytes(bytes: [u8; 20]) -> (oid: SqlOid)
        ensures
            oid@ == bytes@,
    {
        SqlOid(bytes)
    }

    /// Parses hash text. Text that is not forty lowercase hexadecimal digits
    /// is refused with `BadHash`.
    pub fn from_str(s: &str) -> (r: Result<SqlOid, SyncError>)
        ensures
            is_oid_text(s@) ==> (r matches Ok(oid) && oid@ == oid_bytes_of(s@)),
            !is_oid_text(s@) ==> r == Err::<SqlOid, SyncError>(SyncError::BadHash),
    {
        if !is_valid_hex(s) {
            return Err(SyncError::BadHash);
        }
        match git_oid_from_str(s) {
            Ok(bytes) => {
                let mut raw = [0u8; 20];
                let mut i: usize = 0;
                while i < OID_LEN
                    invariant
                        i <= 20,
                        bytes@.len() == 20,
                        forall|k: int| 0 <= k < i ==> raw@[k] == bytes@[k],
                    decreases 20 - i,
                {
                    raw[i] = bytes[i];
                    i += 1;
                }
                assert(raw@ =~= bytes@);
                Ok(SqlOid(raw))
            },
            Err(_) => Err(SyncError::BadHash),
        }
    }

    /// The text form: forty lowercase hexadecimal digits.
    pub fn to_string(&self) -> (text: String)
        ensures
            text@ == oid_text_of(self@),
    {
        git_oid_to_string(&self.0)
    }

    /// Whether this is the zero sentinel.
    pub fn is_zero(&self) -> (r: bool)
        ensures
            r == (self@ == zero_bytes()),
    {
        let mut i: usize = 0;
        while i < OID_LEN
            invariant
                i <= 20,
                forall|k: int| 0 <= k < i ==> self.0@[k] == 0,
            decreases 20 - i,
        {
            if self.0[i] != 0 {
                assert(self@[i as int] != zero_bytes()[i as int]);
                return false;
            }
            i += 1;
        }
        assert(self@ =~= zero_bytes());
        true
    }
}

/// Rendering twenty bytes gives well-formed hash text, and parsing that text
/// gives the bytes back.
pub proof fn lemma_render_then_parse(bytes: Seq<u8>)
    requires
        bytes.len() == 20,
    ensures
        is_oid_text(oid_text_of(bytes)),
        oid_bytes_of(oid_text_of(bytes)) == bytes,
{
    let text = oid_text_of(bytes);
    assert forall|i: int| 0 <= i < 40 implies is_lower_hex(#[trigger] text[i]) by {
        lemma_hex_digit(bytes[i / 2] as int / 16);
        lemma_hex_digit(bytes[i / 2] as int % 16);
    }
    assert forall|i: int| 0 <= i < 20 implies oid_bytes_of(text)[i] == bytes[i] by {
        lemma_hex_digit(bytes[i] as int / 16);
        lemma_hex_digit(bytes[i] as int % 16);
        assert(text[2 * i] == hex_digit(bytes[i] as int / 16));
        assert(text[2 * i + 1] == hex_digit(bytes[i] as int % 16));
    }
    assert(oid_bytes_of(text) =~= bytes);
}

/// Parsing well-formed hash text and rendering the result gives the text back.
pub proof fn lemma_parse_then_render(text: Seq<char>)
    requires
        is_oid_text(text),
    ensures
        oid_bytes_of(text).len() == 20,
        oid_text_of(oid_bytes_of(text)) == text,
{
    let bytes = oid_bytes_of(text);
    assert forall|i: int| 0 <= i < 40 implies oid_text_of(bytes)[i] == text[i] by {
        let hi = text[2 * (i / 2)];
        let lo = text[2 * (i / 2) + 1];
        assert(is_lower_hex(hi) && is_lower_hex(lo));
        lemma_hex_value(hi);
        lemma_hex_value(lo);
        assert(bytes[i / 2] == (16 * hex_value(hi) + hex_value(lo)) as u8);
    }
    assert(oid_text_of(bytes) =~= text);
}

/// A number below sixteen has a lowercase hexadecimal digit, whose value it is.
proof fn lemma_hex_digit(v: int)
    requires
        0 <= v < 16,
    ensures
        is_lower_hex(hex_digit(v)),
        hex_value(hex_digit(v)) == v,
{
}

/// A lowercase hexadecimal digit stands for a number below sixteen, whose digit it is.
proof fn lemma_hex_value(c: char)
    requires
        is_lower_hex(c),
    ensures
        0 <= hex_value(c) < 16,
        hex_digit(hex_value(c)) == c,
{
}

} // verus!
