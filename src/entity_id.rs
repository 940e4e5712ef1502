use vstd::prelude::*;
use vstd::string::*;

verus! {

/// Why a text is not a typed identifier.
#[derive(Debug, Clone, Copy, PartialEq, Eq, Structural)]
pub enum EntityIdError {
    /// The text is not `<prefix>_<uuid>` with the expected prefix.
    InvalidFormat,
    /// The part after the separator is not a uuid.
    InvalidUuid,
}

impl EntityIdError {
    pub fn to_string(&self) -> (r: String)
        ensures
            r@ == entity_id_error_text(*self),
    {
        match self {
            EntityIdError::InvalidFormat => String::from_str("It is not in the prefix_UUID format."),
            EntityIdError::InvalidUuid => String::from_str("Invalid UUID format"),
        }
    }
}

pub open spec fn entity_id_error_text(e: EntityIdError) -> Seq<char> {
    match e {
        EntityIdError::InvalidFormat => "It is not in the prefix_UUID format."@,
        EntityIdError::InvalidUuid => "Invalid UUID format"@,
    }
}

/// The character between the prefix and the uuid of an identifier.
pub const ID_SEPARATOR: char = '_';

/// A typed identifier, written `<prefix>_<uuid>`.
pub trait EntityId {
    /// The identifier text for `p` and the uuid `u`, or a fresh random uuid
    /// when `u` is `None`.
    fn generate_id(p: &str, u: Option<u128>) -> (r: String)
        ensures
            match u {
                Some(v) => r@ == id_text(p@, v),
                None => exists|v: u128| r@ == #[trigger] id_text(p@, v) && is_random_uuid(v),
            },
    ;

    fn type_prefix(&self) -> &String;

    fn value(&self) -> &String;
}

/// The lowercase hexadecimal digit of a number below sixteen.
pub open spec fn hex_digit(d: int) -> char {
    seq!['0', '1', '2', '3', '4', '5', '6', '7', '8', '9', 'a', 'b', 'c', 'd', 'e', 'f'][d]
}

/// The `i`-th of the 32 hexadecimal digits of `v`, most significant first.
pub open spec fn nibble(v: u128, i: int) -> int {
    ((v >> ((124 - 4 * i) as u128)) & 15u128) as int
}

/// The 32 lowercase hexadecimal digits of `v`, most significant first.
pub open spec fn hex_digits(v: u128) -> Seq<char> {
    Seq::new(32, |i: int| hex_digit(nibble(v, i)))
}

/// The canonical text of a uuid: its 32 lowercase hexadecimal digits in
/// groups of 8, 4, 4, 4 and 12, joined by hyphens.
pub open spec fn uuid_text(v: u128) -> Seq<char> {
    let h = hex_digits(v);
    h.subrange(0, 8) + seq!['-'] + h.subrange(8, 12) + seq!['-'] + h.subrange(12, 16) + seq!['-']
        + h.subrange(16, 20) + seq!['-'] + h.subrange(20, 32)
}

/// The text of the identifier with prefix `p` and uuid `v`.
pub open spec fn id_text(p: Seq<char>, v: u128) -> Seq<char> {
    p + seq![ID_SEPARATOR] + uuid_text(v)
}

/// What `uuid::Uuid::parse_str` makes of a text: the uuid's value, or
/// `None` where it refuses the text.
pub uninterp spec fn uuid_parse_of(s: Seq<char>) -> Option<u128>;

/// Relies on `uuid::Uuid::parse_str` (then `Uuid::as_u128`): the result
/// depends on the text alone, a text of any byte length but 32, 36, 38 and
/// 45 is refused, and the canonical text of a uuid parses back to that uuid.
#[verifier::external_body]
pub(crate) fn parse_uuid(s: &str) -> (r: Option<u128>)
    ensures
        r == uuid_parse_of(s@),
        !(s.spec_bytes().len() == 32 || s.spec_bytes().len() == 36 || s.spec_bytes().len() == 38
            || s.spec_bytes().len() == 45) ==> r is None,
        forall|v: u128| s@ == #[trigger] uuid_text(v) ==> r == Some(v),
{
    uuid::Uuid::parse_str(s).ok().map(|u| u.as_u128())
}

/// Relies on `uuid::Uuid::from_u128` and the `Display` of `uuid::Uuid`: the
/// lowercase hyphenated form of the big-endian bytes of `v`.
#[verifier::external_body]
pub(crate) fn format_uuid(v: u128) -> (r: String)
    ensures
        r@ == uuid_text(v),
{
    uuid::Uuid::from_u128(v).to_string()
}

/// A version 4 uuid of the RFC 4122 variant: version bits `0100`, variant
/// bits `10`.
pub open spec fn is_random_uuid(v: u128) -> bool {
    (v >> 76u128) & 15u128 == 4 && (v >> 62u128) & 3u128 == 2
}

/// Relies on `uuid::Uuid::new_v4` (then `Uuid::as_u128`): random bits, with
/// the version and variant bits always set to version 4, RFC 4122.
#[verifier::external_body]
pub(crate) fn random_uuid() -> (r: u128)
    ensures
        is_random_uuid(r),
{
    uuid::Uuid::new_v4().as_u128()
}

/// The identifier text for prefix `p` and uuid `v`.
pub fn id_text_of(p: &str, v: u128) -> (r: String)
    ensures
        r@ == id_text(p@, v),
{
    let u = format_uuid(v);
    let mut r = String::from_str(p);
    r.append("_");
    r.append(u.as_str());
    proof {
        reveal_strlit("_");
    }
    r
}

/// No character of a uuid's canonical text is the separator.
pub proof fn lemma_uuid_text_has_no_separator(v: u128)
    ensures
        uuid_text(v).len() == 36,
        forall|j: int| 0 <= j < 36 ==> uuid_text(v)[j] != ID_SEPARATOR,
{
    let h = hex_digits(v);
    assert forall|i: int| 0 <= i < 32 implies h[i] != ID_SEPARATOR by {
        lemma_low_bits(v, (124 - 4 * i) as u128);
    }
}

proof fn lemma_low_bits(v: u128, s: u128)
    ensures
        (v >> s) & 15u128 <= 15u128,
{
    assert((v >> s) & 15u128 <= 15u128) by (bit_vector);
}

} // verus!
