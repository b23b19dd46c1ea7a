//! Normalisation of user-supplied identifiers: prefix stripping and hex
//! decoding into fixed-width addresses and hashes.

use vstd::prelude::*;
use vstd::string::*;

verus! {

/// Number of bytes in an account address.
pub const ADDRESS_SIZE: usize = 20;

/// Number of bytes in a transaction or block hash.
pub const HASH_SIZE: usize = 32;

/// The `0x` prefix.
pub open spec fn hex_tag() -> Seq<char> {
    seq!['0', 'x']
}

/// The `sync-bl:` scheme tag.
pub open spec fn block_tag() -> Seq<char> {
    seq!['s', 'y', 'n', 'c', '-', 'b', 'l', ':']
}

/// The `sync-tx:` scheme tag.
pub open spec fn tx_tag() -> Seq<char> {
    seq!['s', 'y', 'n', 'c', '-', 't', 'x', ':']
}

/// Whether `query` begins with one of the recognised prefixes.
pub open spec fn has_known_prefix(query: Seq<char>) -> bool {
    hex_tag().is_prefix_of(query) || block_tag().is_prefix_of(query) || tx_tag().is_prefix_of(
        query,
    )
}

/// `query` without its recognised prefix, if it has one.
///
/// At most one prefix is removed: `0x` is tried first, then the two scheme
/// tags. Anything else is left as it is.
pub open spec fn strip_prefix(query: Seq<char>) -> Seq<char> {
    if hex_tag().is_prefix_of(query) {
        query.skip(2)
    } else if block_tag().is_prefix_of(query) || tx_tag().is_prefix_of(query) {
        query.skip(8)
    } else {
        query
    }
}

/// Whether `text` begins with `prefix`, character by character.
fn starts_with(text: &str, prefix: &str) -> (found: bool)
    ensures
        found == prefix@.is_prefix_of(text@),
{
    let text_len: usize = text.unicode_len();
    let prefix_len: usize = prefix.unicode_len();
    if prefix_len > text_len {
        return false;
    }
    let mut i: usize = 0;
    while i < prefix_len
        invariant
            i <= prefix_len <= text_len,
            prefix_len == prefix@.len(),
            text_len == text@.len(),
            forall|k: int| 0 <= k < i ==> text@[k] == prefix@[k],
        decreases prefix_len - i,
    {
        if text.get_char(i) != prefix.get_char(i) {
            assert(text@.subrange(0, prefix@.len() as int)[i as int] != prefix@[i as int]);
            return false;
        }
        i += 1;
    }
    assert(text@.subrange(0, prefix@.len() as int) =~= prefix@);
    true
}

/// Removes a recognised prefix (`0x`, `sync-bl:` or `sync-tx:`) from `query`.
pub fn remove_prefix<'a>(query: &'a str) -> (rest: &'a str)
    ensures
        rest@ == strip_prefix(query@),
{
    proof {
        reveal_strlit("0x");
        reveal_strlit("sync-bl:");
        reveal_strlit("sync-tx:");
        assert("0x"@ =~= hex_tag());
        assert("sync-bl:"@ =~= block_tag());
        assert("sync-tx:"@ =~= tx_tag());
    }
    let len: usize = query.unicode_len();
    if starts_with(query, "0x") {
        query.substring_char(2, len)
    } else if starts_with(query, "sync-bl:") || starts_with(query, "sync-tx:") {
        query.substring_char(8, len)
    } else {
        query
    }
}

/// The value of one hex digit, in either case; `None` for any other
/// character.
pub open spec fn hex_digit_value(c: char) -> Option<u8> {
    let code = c as u32;
    if 0x30 <= code <= 0x39 {
        Some((code - 0x30) as u8)
    } else if 0x61 <= code <= 0x66 {
        Some((code - 0x61 + 10) as u8)
    } else if 0x41 <= code <= 0x46 {
        Some((code - 0x41 + 10) as u8)
    } else {
        None
    }
}

/// Whether `text` is a hex rendering of some bytes: an even number of
/// characters, each of them a hex digit.
pub open spec fn is_hex_text(text: Seq<char>) -> bool {
    &&& text.len() % 2 == 0
    &&& forall|i: int| 0 <= i < text.len() ==> hex_digit_value(#[trigger] text[i]) is Some
}

/// The byte written by the two digits `high` and `low`.
pub open spec fn hex_byte(high: char, low: char) -> u8 {
    (hex_digit_value(high)->0 * 16 + hex_digit_value(low)->0) as u8
}

/// The bytes that `text` renders, two digits per byte, most significant
/// digit first. Meaningful where `is_hex_text(text)`.
pub open spec fn decoded_bytes(text: Seq<char>) -> Seq<u8> {
    Seq::new((text.len() / 2) as nat, |i: int| hex_byte(text[2 * i], text[2 * i + 1]))
}

#[verifier::external_type_specification]
#[verifier::external_body]
pub struct ExFromHexError(hex::FromHexError);

/// Decodes `text` with `hex::decode`.
///
/// Trusted: the call succeeds exactly when `text` has an even number of
/// characters and all of them are hex digits (upper and lower case may be
/// mixed), and then returns one byte per pair of digits, the first digit of
/// a pair being the high half of the byte.
#[verifier::external_body]
fn hex_decode(text: &str) -> (decoded: Result<Vec<u8>, hex::FromHexError>)
    ensures
        decoded is Ok <==> is_hex_text(text@),
        decoded matches Ok(bytes) ==> bytes@ == decoded_bytes(text@),
{
    hex::decode(text)
}

/// A 20-byte account address.
#[derive(Clone, Copy, Debug, PartialEq, Eq)]
pub struct Address {
    pub bytes: [u8; 20],
}

impl View for Address {
    type V = Seq<u8>;

    open spec fn view(&self) -> Seq<u8> {
        self.bytes@
    }
}

impl Address {
    /// The address made of the 20 bytes of `bytes`.
    pub fn from_slice(bytes: &[u8]) -> (address: Address)
        requires
            bytes@.len() == ADDRESS_SIZE,
        ensures
            address@ == bytes@,
    {
        let mut out: [u8; 20] = [0u8; 20];
        let mut i: usize = 0;
        while i < 20
            invariant
                i <= 20,
                bytes@.len() == 20,
                forall|k: int| 0 <= k < i ==> out@[k] == bytes@[k],
            decreases 20 - i,
        {
            out[i] = bytes[i];
            i += 1;
        }
        assert(out@ =~= bytes@);
        Address { bytes: out }
    }

    /// The 20 bytes of the address.
    pub fn as_bytes(&self) -> (bytes: &[u8])
        ensures
            bytes@ == self@,
            bytes@.len() == ADDRESS_SIZE,
    {
        self.bytes.as_slice()
    }
}

/// The address that `query` names: its recognised prefix removed, the rest
/// hex-decoded, and accepted only if that gives exactly 20 bytes.
pub open spec fn parse_address(query: Seq<char>) -> Option<Seq<u8>> {
    let rest = strip_prefix(query);
    if is_hex_text(rest) && decoded_bytes(rest).len() == ADDRESS_SIZE {
        Some(decoded_bytes(rest))
    } else {
        None
    }
}

/// The hash that `query` names: its recognised prefix removed, the rest
/// hex-decoded, and accepted only if that gives exactly 32 bytes.
pub open spec fn parse_hash(query: Seq<char>) -> Option<Seq<u8>> {
    let rest = strip_prefix(query);
    if is_hex_text(rest) && decoded_bytes(rest).len() == HASH_SIZE {
        Some(decoded_bytes(rest))
    } else {
        None
    }
}

/// The bytes named on the raw path: the first two characters of `text` are
/// dropped whatever they are, and the rest is hex-decoded. No length is
/// asked of the result.
pub open spec fn parse_raw_hash(text: Seq<char>) -> Option<Seq<u8>> {
    if text.len() >= 2 && is_hex_text(text.skip(2)) {
        Some(decoded_bytes(text.skip(2)))
    } else {
        None
    }
}

/// Parses an account address, with or without a recognised prefix.
pub fn try_parse_address(query: &str) -> (address: Option<Address>)
    ensures
        match address {
            Some(a) => parse_address(query@) == Some(a@),
            None => parse_address(query@) is None,
        },
{
    let rest = remove_prefix(query);
    match hex_decode(rest) {
        Ok(bytes) => {
            if bytes.len() == ADDRESS_SIZE {
                Some(Address::from_slice(bytes.as_slice()))
            } else {
                None
            }
        },
        Err(_) => None,
    }
}

/// Parses a 32-byte hash, with or without a recognised prefix.
pub fn try_parse_hash(query: &str) -> (hash: Option<Vec<u8>>)
    ensures
        match hash {
            Some(h) => parse_hash(query@) == Some(h@),
            None => parse_hash(query@) is None,
        },
{
    let rest = remove_prefix(query);
    match hex_decode(rest) {
        Ok(bytes) => {
            if bytes.len() == HASH_SIZE {
                Some(bytes)
            } else {
                None
            }
        },
        Err(_) => None,
    }
}

/// Parses a hash on the raw path: at least two characters are required, the
/// first two are dropped without being looked at, and the rest must be hex.
pub fn try_parse_raw_hash(text: &str) -> (hash: Option<Vec<u8>>)
    ensures
        match hash {
            Some(h) => parse_raw_hash(text@) == Some(h@),
            None => parse_raw_hash(text@) is None,
        },
{
    let len: usize = text.unicode_len();
    if len < 2 {
        return None;
    }
    let rest = text.substring_char(2, len);
    match hex_decode(rest) {
        Ok(bytes) => Some(bytes),
        Err(_) => None,
    }
}

/// No query whose unprefixed part is other than 40 characters long names an
/// address.
pub proof fn law_address_needs_forty_digits(query: Seq<char>)
    requires
        strip_prefix(query).len() != 40,
    ensures
        parse_address(query) is None,
{
}

/// No query whose unprefixed part is other than 64 characters long names a
/// hash.
pub proof fn law_hash_needs_sixty_four_digits(query: Seq<char>)
    requires
        strip_prefix(query).len() != 64,
    ensures
        parse_hash(query) is None,
{
}

/// Stripping removes a recognised prefix and nothing else: the query is
/// always the removed prefix followed by what is left, and a query without a
/// recognised prefix is left as it is.
pub proof fn law_strip_removes_only_known_prefix(query: Seq<char>)
    ensures
        !has_known_prefix(query) ==> strip_prefix(query) == query,
        hex_tag().is_prefix_of(query) ==> query == hex_tag() + strip_prefix(query),
        !hex_tag().is_prefix_of(query) && block_tag().is_prefix_of(query) ==> query == block_tag()
            + strip_prefix(query),
        !hex_tag().is_prefix_of(query) && tx_tag().is_prefix_of(query) ==> query == tx_tag()
            + strip_prefix(query),
{
    if hex_tag().is_prefix_of(query) {
        assert(query =~= hex_tag() + query.skip(2));
    } else if block_tag().is_prefix_of(query) {
        assert(query =~= block_tag() + query.skip(8));
    } else if tx_tag().is_prefix_of(query) {
        assert(query =~= tx_tag() + query.skip(8));
    }
}

/// Stripping a second time changes nothing once no recognised prefix is
/// left.
pub proof fn law_strip_is_idempotent_without_prefix(query: Seq<char>)
    requires
        !has_known_prefix(strip_prefix(query)),
    ensures
        strip_prefix(strip_prefix(query)) == strip_prefix(query),
{
}

/// Hex text never begins with a recognised prefix, so stripping leaves it
/// alone, and it names the same bytes with any one of the prefixes in front
/// of it.
pub proof fn law_prefix_is_optional(digits: Seq<char>)
    requires
        is_hex_text(digits),
    ensures
        strip_prefix(digits) == digits,
        strip_prefix(hex_tag() + digits) == digits,
        strip_prefix(block_tag() + digits) == digits,
        strip_prefix(tx_tag() + digits) == digits,
        digits.len() == 40 ==> parse_address(digits) == Some(decoded_bytes(digits))
            && parse_address(hex_tag() + digits) == parse_address(digits),
        digits.len() == 64 ==> parse_hash(digits) == Some(decoded_bytes(digits)) && parse_hash(
            hex_tag() + digits,
        ) == parse_hash(digits),
{
    if digits.len() >= 2 {
        assert(hex_digit_value(digits[1]) is Some);
        assert(hex_digit_value(digits[0]) is Some);
        assert(!hex_tag().is_prefix_of(digits)) by {
            if hex_tag().is_prefix_of(digits) {
                assert(digits.subrange(0, 2)[1] == 'x');
            }
        }
        assert(!block_tag().is_prefix_of(digits)) by {
            if block_tag().is_prefix_of(digits) {
                assert(digits.subrange(0, 8)[0] == 's');
            }
        }
        assert(!tx_tag().is_prefix_of(digits)) by {
            if tx_tag().is_prefix_of(digits) {
                assert(digits.subrange(0, 8)[0] == 's');
            }
        }
    }
    assert(hex_tag().is_prefix_of(hex_tag() + digits)) by {
        assert((hex_tag() + digits).subrange(0, 2) =~= hex_tag());
    }
    assert((hex_tag() + digits).skip(2) =~= digits);
    assert(!hex_tag().is_prefix_of(block_tag() + digits)) by {
        if hex_tag().is_prefix_of(block_tag() + digits) {
            assert((block_tag() + digits).subrange(0, 2)[0] == '0');
        }
    }
    assert(block_tag().is_prefix_of(block_tag() + digits)) by {
        assert((block_tag() + digits).subrange(0, 8) =~= block_tag());
    }
    assert((block_tag() + digits).skip(8) =~= digits);
    assert(!hex_tag().is_prefix_of(tx_tag() + digits)) by {
        if hex_tag().is_prefix_of(tx_tag() + digits) {
            assert((tx_tag() + digits).subrange(0, 2)[0] == '0');
        }
    }
    assert(tx_tag().is_prefix_of(tx_tag() + digits)) by {
        assert((tx_tag() + digits).subrange(0, 8) =~= tx_tag());
    }
    assert((tx_tag() + digits).skip(8) =~= digits);
}

} // verus!
