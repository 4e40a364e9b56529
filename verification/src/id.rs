//! Row identifiers: 128-bit values, written as hyphenated hexadecimal text.

use vstd::prelude::*;

verus! {

/// An identifier, held as its 128 bits.
#[derive(Clone, Copy, Debug, PartialEq, Eq, Structural, Hash)]
pub struct Uuid {
    pub bits: u128,
}

/// The lower-case hexadecimal digit that stands for `d`.
pub open spec fn hex_digit(d: int) -> char {
    if d < 10 {
        (48 + d) as char
    } else {
        (87 + d) as char
    }
}

/// The last `len` hexadecimal digits of `n`.
pub open spec fn hex_text(n: nat, len: nat) -> Seq<char>
    decreases len,
{
    if len == 0 {
        Seq::empty()
    } else {
        hex_text(n / 16, (len - 1) as nat).push(hex_digit((n % 16) as int))
    }
}

/// The text of an identifier: its 32 hexadecimal digits in groups of 8, 4, 4,
/// 4 and 12, joined by hyphens.
#[verifier::opaque]
pub open spec fn uuid_text(id: Uuid) -> Seq<char> {
    let h = hex_text(id.bits as nat, 32);
    h.subrange(0, 8) + seq!['-'] + h.subrange(8, 12) + seq!['-'] + h.subrange(12, 16) + seq!['-']
        + h.subrange(16, 20) + seq!['-'] + h.subrange(20, 32)
}

/// What `uuid::Uuid::parse_str` reads in a text: the 128 bits, or nothing
/// where it reports an error.
pub uninterp spec fn uuid_bits_in(s: Seq<char>) -> Option<u128>;

/// The identifier that `s` reads as, if it reads as one.
pub open spec fn read_uuid(s: Seq<char>) -> Option<Uuid> {
    match uuid_bits_in(s) {
        Some(bits) => Some(Uuid { bits }),
        None => None,
    }
}

/// `uuid::Uuid::parse_str`: the result depends on the text alone, and the
/// hyphenated lower-case text of an identifier reads as that identifier.
/// Which other texts read as an identifier is left unsaid.
#[verifier::external_body]
fn parse_bits(s: &str) -> (r: Option<u128>)
    ensures
        r == uuid_bits_in(s@),
        forall|id: Uuid| s@ == #[trigger] uuid_text(id) ==> r == Some(id.bits),
{
    match uuid::Uuid::parse_str(s) {
        Ok(id) => Some(id.as_u128()),
        Err(_) => None,
    }
}

/// `uuid::Uuid`'s `Display`: the hyphenated lower-case text.
#[verifier::external_body]
fn format_bits(bits: u128) -> (r: String)
    ensures
        r@ == uuid_text(Uuid { bits }),
{
    uuid::Uuid::from_u128(bits).to_string()
}

/// `uuid::Uuid::now_v7`: an identifier made from the clock and chance, of
/// which only the version and the variant are fixed.
#[verifier::external_body]
fn fresh_bits() -> (r: u128)
    ensures
        r / 0x1000_0000_0000_0000_0000 % 0x10 == 7,
        r / 0x4000_0000_0000_0000 % 4 == 2,
{
    uuid::Uuid::now_v7().as_u128()
}

impl Uuid {
    /// Whether this is a time-ordered identifier as [`Uuid::now_v7`] makes.
    pub open spec fn is_v7(self) -> bool {
        &&& self.bits / 0x1000_0000_0000_0000_0000 % 0x10 == 7
        &&& self.bits / 0x4000_0000_0000_0000 % 4 == 2
    }

    /// Reads an identifier. The text that [`Uuid::text`] gives for one reads
    /// back as that one.
    pub fn parse_str(s: &str) -> (r: Option<Uuid>)
        ensures
            r == read_uuid(s@),
            forall|id: Uuid| s@ == #[trigger] uuid_text(id) ==> r == Some(id),
    {
        match parse_bits(s) {
            Some(bits) => Some(Uuid { bits }),
            None => None,
        }
    }

    /// The hyphenated text of this identifier.
    pub fn text(self) -> (r: String)
        ensures
            r@ == uuid_text(self),
    {
        format_bits(self.bits)
    }

    /// A new identifier.
    pub fn now_v7() -> (r: Uuid)
        ensures
            r.is_v7(),
    {
        Uuid { bits: fresh_bits() }
    }
}

/// The text of an identifier has no white space at either end.
pub proof fn identifiers_have_bare_ends(id: Uuid)
    ensures
        crate::text::bare(uuid_text(id)),
{
    reveal(uuid_text);
    let h = hex_text(id.bits as nat, 32);
    lemma_hex_digits(id.bits as nat, 32);
    assert(uuid_text(id)[0] == h[0]);
    assert(uuid_text(id).last() == h[31]);
}

proof fn lemma_hex_digits(n: nat, len: nat)
    ensures
        hex_text(n, len).len() == len,
        forall|i: int|
            0 <= i < len ==> !crate::text::is_white_space(#[trigger] hex_text(n, len)[i]),
    decreases len,
{
    if len > 0 {
        lemma_hex_digits(n / 16, (len - 1) as nat);
        let d = (n % 16) as int;
        assert(!crate::text::is_white_space(hex_digit(d)));
    }
}

} // verus!
