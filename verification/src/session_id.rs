//! Session identifiers: random UUIDs and their text forms.

use vstd::prelude::*;

verus! {

/// The value of a hexadecimal digit of either case.
pub open spec fn hex_value(c: char) -> Option<nat> {
    if '0' <= c <= '9' {
        Some((c as nat - '0' as nat) as nat)
    } else if 'a' <= c <= 'f' {
        Some((c as nat - 'a' as nat + 10) as nat)
    } else if 'A' <= c <= 'F' {
        Some((c as nat - 'A' as nat + 10) as nat)
    } else {
        None
    }
}

/// The lowercase hexadecimal digit of a value below 16.
pub open spec fn hex_digit(value: nat) -> char {
    if value < 10 {
        (value + '0' as nat) as char
    } else {
        (value - 10 + 'a' as nat) as char
    }
}

/// Every character of `digits` is a hexadecimal digit.
pub open spec fn all_hex(digits: Seq<char>) -> bool {
    forall|i: int| 0 <= i < digits.len() ==> hex_value(#[trigger] digits[i]) is Some
}

/// The number that hexadecimal digits write, most significant digit first.
pub open spec fn hex_number(digits: Seq<char>) -> nat
    decreases digits.len(),
{
    if digits.len() == 0 {
        0
    } else {
        16 * hex_number(digits.drop_last()) + hex_value(digits.last())->0
    }
}

/// The lowest `count` hexadecimal digits of `number`, most significant first.
pub open spec fn hex_digits(number: nat, count: nat) -> Seq<char>
    decreases count,
{
    if count == 0 {
        Seq::empty()
    } else {
        hex_digits(number / 16, (count - 1) as nat).push(hex_digit(number % 16))
    }
}

/// Groups 32 digits as 8-4-4-4-12, with hyphens between the groups.
pub open spec fn hyphenate(digits: Seq<char>) -> Seq<char> {
    digits.subrange(0, 8) + seq!['-'] + digits.subrange(8, 12) + seq!['-'] + digits.subrange(12, 16)
        + seq!['-'] + digits.subrange(16, 20) + seq!['-'] + digits.subrange(20, 32)
}

/// Takes the digits out of a hyphenated text of 36 characters.
pub open spec fn unhyphenate(text: Seq<char>) -> Seq<char> {
    text.subrange(0, 8) + text.subrange(9, 13) + text.subrange(14, 18) + text.subrange(19, 23)
        + text.subrange(24, 36)
}

/// The canonical text of a UUID: lowercase, hyphenated, 36 characters.
pub open spec fn uuid_text(bits: u128) -> Seq<char> {
    hyphenate(hex_digits(bits as nat, 32))
}

/// What 32 characters without hyphens denote.
pub open spec fn uuid_of_digits(digits: Seq<char>) -> Option<u128> {
    if all_hex(digits) {
        Some(hex_number(digits) as u128)
    } else {
        None
    }
}

/// What 36 characters in hyphenated form denote.
pub open spec fn uuid_of_hyphenated(text: Seq<char>) -> Option<u128> {
    if text[8] == '-' && text[13] == '-' && text[18] == '-' && text[23] == '-' {
        uuid_of_digits(unhyphenate(text))
    } else {
        None
    }
}

/// `prefix` is `urn:uuid:` in any mix of cases.
pub open spec fn is_urn_prefix(prefix: Seq<char>) -> bool {
    prefix.len() == 9 && (prefix[0] == 'u' || prefix[0] == 'U') && (prefix[1] == 'r' || prefix[1]
        == 'R') && (prefix[2] == 'n' || prefix[2] == 'N') && prefix[3] == ':' && (prefix[4] == 'u'
        || prefix[4] == 'U') && (prefix[5] == 'u' || prefix[5] == 'U') && (prefix[6] == 'i'
        || prefix[6] == 'I') && (prefix[7] == 'd' || prefix[7] == 'D') && prefix[8] == ':'
}

/// The UUID that a text denotes. The simple, hyphenated, braced and URN forms are accepted.
pub open spec fn uuid_of_text(text: Seq<char>) -> Option<u128> {
    if text.len() == 32 {
        uuid_of_digits(text)
    } else if text.len() == 36 {
        uuid_of_hyphenated(text)
    } else if text.len() == 38 && text[0] == '{' && text[37] == '}' {
        uuid_of_hyphenated(text.subrange(1, 37))
    } else if text.len() == 45 && is_urn_prefix(text.subrange(0, 9)) {
        uuid_of_hyphenated(text.subrange(9, 45))
    } else {
        None
    }
}

/// `bits` has the version and the variant of a random UUID.
pub open spec fn is_random_uuid(bits: u128) -> bool {
    (bits >> 76) & 0xf == 4 && (bits >> 62) & 3 == 2
}

/// A session identifier: a UUID, held as its 128 bits in big-endian order.
#[derive(Clone, Copy, Debug, PartialEq, Eq, Structural)]
pub struct Uuid {
    pub bits: u128,
}

impl Uuid {
    /// A fresh random identifier, from `uuid::Uuid::new_v4`.
    ///
    /// Of a random value only the fixed bits are claimed: the version is 4 and the variant is
    /// that of RFC 4122.
    #[verifier::external_body]
    pub(crate) fn new_v4() -> (id: Uuid)
        ensures
            is_random_uuid(id.bits),
    {
        Uuid { bits: uuid::Uuid::new_v4().as_u128() }
    }

    /// The canonical text of the identifier, from the `Display` of `uuid::Uuid`.
    ///
    /// The claim is that it writes the 128 bits as 32 lowercase hexadecimal digits, most
    /// significant first, grouped 8-4-4-4-12 by hyphens.
    #[verifier::external_body]
    pub(crate) fn to_text(&self) -> (text: String)
        ensures
            text@ == uuid_text(self.bits),
    {
        uuid::Uuid::from_u128(self.bits).to_string()
    }

    /// Reads an identifier, through the `FromStr` of `uuid::Uuid`.
    ///
    /// The claim is that it accepts 32 hexadecimal digits, the hyphenated form, that form in
    /// braces and that form behind `urn:uuid:`, and nothing else, and that letters may be of
    /// either case.
    #[verifier::external_body]
    pub(crate) fn from_text(text: &str) -> (id: Option<Uuid>)
        ensures
            match id {
                Some(id) => uuid_of_text(text@) == Some(id.bits),
                None => uuid_of_text(text@) is None,
            },
    {
        text.parse::<uuid::Uuid>().ok().map(|id| Uuid { bits: id.as_u128() })
    }
}

/// Writing a number as digits and reading the digits back gives the number.
proof fn lemma_hex_digits(number: nat, count: nat)
    requires
        number < vstd::arithmetic::power::pow(16, count),
    ensures
        hex_digits(number, count).len() == count,
        all_hex(hex_digits(number, count)),
        hex_number(hex_digits(number, count)) == number,
        forall|i: int|
            0 <= i < count ==> {
                let c = #[trigger] hex_digits(number, count)[i];
                '0' <= c <= '9' || 'a' <= c <= 'f'
            },
    decreases count,
{
    reveal(vstd::arithmetic::power::pow);
    if count > 0 {
        let rest = (count - 1) as nat;
        let head = hex_digits(number / 16, rest);
        let all = hex_digits(number, count);
        assert(number / 16 < vstd::arithmetic::power::pow(16, rest)) by (nonlinear_arith)
            requires
                number < 16 * vstd::arithmetic::power::pow(16, rest),
        ;
        lemma_hex_digits(number / 16, rest);
        assert(all.drop_last() =~= head);
        assert(hex_value(hex_digit(number % 16)) == Some(number % 16));
        assert forall|i: int| 0 <= i < all.len() implies hex_value(#[trigger] all[i]) is Some by {
            if i < rest {
                assert(all[i] == head[i]);
            }
        }
        assert forall|i: int| 0 <= i < count implies {
            let c = #[trigger] all[i];
            '0' <= c <= '9' || 'a' <= c <= 'f'
        } by {
            if i < rest {
                assert(all[i] == head[i]);
            }
        }
    }
}

/// The text of an identifier has 36 characters, all of them digits, lowercase letters and
/// hyphens, and denotes that identifier and no other.
pub proof fn law_uuid_text_round_trip(bits: u128)
    ensures
        uuid_text(bits).len() == 36,
        forall|i: int|
            0 <= i < 36 ==> {
                let c = #[trigger] uuid_text(bits)[i];
                '0' <= c <= '9' || 'a' <= c <= 'f' || c == '-'
            },
        uuid_of_text(uuid_text(bits)) == Some(bits),
{
    assert(vstd::arithmetic::power::pow(16, 32) == 0x1_0000_0000_0000_0000_0000_0000_0000_0000) by {
        reveal(vstd::arithmetic::power::pow);
        reveal_with_fuel(vstd::arithmetic::power::pow, 33);
    }
    lemma_hex_digits(bits as nat, 32);
    let digits = hex_digits(bits as nat, 32);
    let text = uuid_text(bits);
    assert(unhyphenate(text) =~= digits);
}

/// Different identifiers have different texts.
pub proof fn law_uuid_text_injective(a: u128, b: u128)
    requires
        uuid_text(a) == uuid_text(b),
    ensures
        a == b,
{
    law_uuid_text_round_trip(a);
    law_uuid_text_round_trip(b);
}

} // verus!
