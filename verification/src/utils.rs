//! Helpers around keys: account addresses, network names, hexadecimal
//! numbers and answers typed by the user.
use vstd::prelude::*;
use vstd::string::{StrSliceExecFns, StringExecFns};
use crate::constants::{HEX_PREFIX, URL_PREFIX};
use crate::error::AppError;
use crate::keygen::PublicKey;

verus! {

/// The Keccak-256 digest of a byte string.
pub uninterp spec fn keccak256_digest(data: Seq<u8>) -> Seq<u8>;

/// Hashes with `tiny_keccak::Keccak::v256`, `Hasher::update` and
/// `Hasher::finalize`.
///
/// Trusted: the 32 bytes handed back depend on the input alone.
#[verifier::external_body]
fn keccak256(data: &[u8]) -> (digest: [u8; 32])
    ensures
        digest@ == keccak256_digest(data@),
{
    let mut hasher = tiny_keccak::Keccak::v256();
    tiny_keccak::Hasher::update(&mut hasher, data);
    let mut digest = [0u8; 32];
    tiny_keccak::Hasher::finalize(hasher, &mut digest);
    digest
}

/// An account address: 20 bytes.
#[derive(Clone, Copy, Debug)]
pub struct Address {
    bytes: [u8; 20],
}

impl View for Address {
    type V = Seq<u8>;

    closed spec fn view(&self) -> Seq<u8> {
        self.bytes@
    }
}

impl Address {
    /// Takes 20 bytes as an address.
    pub fn from_bytes(bytes: [u8; 20]) -> (address: Address)
        ensures
            address@ == bytes@,
    {
        Address { bytes }
    }

    /// The 20 bytes of the address.
    pub fn to_bytes(&self) -> (bytes: [u8; 20])
        ensures
            bytes@ == self@,
    {
        self.bytes
    }
}

/// The address of a public point: the last 20 bytes of the digest of its
/// two coordinates.
pub open spec fn address_of(public: Seq<u8>) -> Seq<u8> {
    keccak256_digest(public.subrange(1, 65)).subrange(12, 32)
}

/// The name of the host that serves a network.
pub open spec fn network_name(network_id: u8) -> Seq<char> {
    if network_id == 10 {
        "testnet-wallet.smilo.network/api/"@
    } else {
        "api.smilo.network/"@
    }
}

/// Names the host that serves a network.
pub fn get_network_name(network_id: u8) -> (name: String)
    ensures
        name@ == network_name(network_id),
{
    if network_id == 10 {
        String::from_str("testnet-wallet.smilo.network/api/")
    } else {
        String::from_str("api.smilo.network/")
    }
}

/// The address under which a network is reached.
pub fn get_infura_url(network_id: u8) -> (url: String)
    ensures
        url@ == URL_PREFIX@ + network_name(network_id),
{
    let name = get_network_name(network_id);
    String::from_str(URL_PREFIX).concat(name.as_str())
}

/// The encoding of a public point as a byte vector.
pub fn serialize(public: PublicKey) -> (bytes: Result<Vec<u8>, AppError>)
    ensures
        bytes.is_ok(),
        bytes->Ok_0@ == public@,
        bytes->Ok_0@.len() == 65,
{
    let encoded = public.to_bytes();
    let mut bytes: Vec<u8> = Vec::new();
    let mut i: usize = 0;
    while i < 65
        invariant
            0 <= i <= 65,
            bytes@ == encoded@.take(i as int),
        decreases 65 - i,
    {
        bytes.push(encoded[i]);
        assert(encoded@.take(i + 1) =~= encoded@.take(i as int).push(encoded@[i as int]));
        i = i + 1;
    }
    assert(encoded@.take(65) =~= encoded@);
    Ok(bytes)
}

/// Hashes the two coordinates of an encoded public point.
pub fn hash(serialized_key: Vec<u8>) -> (digest: [u8; 32])
    requires
        serialized_key@.len() >= 65,
    ensures
        digest@ == keccak256_digest(serialized_key@.subrange(1, 65)),
{
    keccak256(vstd::slice::slice_subrange(serialized_key.as_slice(), 1, 65))
}

/// Takes the last 20 bytes of a digest as an address.
pub fn convert_to_address_type(hashed_key: [u8; 32]) -> (address: Address)
    ensures
        address@ == hashed_key@.subrange(12, 32),
{
    let mut bytes = [0u8; 20];
    let mut i: usize = 0;
    while i < 20
        invariant
            0 <= i <= 20,
            forall|k: int| 0 <= k < i ==> bytes@[k] == hashed_key@[k + 12],
        decreases 20 - i,
    {
        bytes[i] = hashed_key[i + 12];
        i = i + 1;
    }
    assert(bytes@ =~= hashed_key@.subrange(12, 32));
    Address::from_bytes(bytes)
}

/// The address that belongs to a public point.
pub fn public_to_address(public: PublicKey) -> (address: Result<Address, AppError>)
    ensures
        address.is_ok(),
        address->Ok_0@ == address_of(public@),
{
    match serialize(public) {
        Ok(bytes) => Ok(convert_to_address_type(hash(bytes))),
        Err(error) => Err(error),
    }
}

/// What is left of `text` when every leading occurrence of `prefix` has
/// been taken off.
pub open spec fn strip_prefix_all(text: Seq<char>, prefix: Seq<char>) -> Seq<char>
    decreases text.len(),
{
    if prefix.len() > 0 && prefix.is_prefix_of(text) {
        strip_prefix_all(text.skip(prefix.len() as int), prefix)
    } else {
        text
    }
}

/// Takes every leading `0x` off a string.
pub fn trim_hex_prefix(hex_string: String) -> (trimmed: Result<String, AppError>)
    ensures
        trimmed.is_ok(),
        trimmed->Ok_0@ == strip_prefix_all(hex_string@, HEX_PREFIX@),
{
    proof {
        reveal_strlit("0x");
    }
    let text = hex_string.as_str();
    let len = text.unicode_len();
    let mut start: usize = 0;
    assert(text@.skip(0) =~= text@);
    while len - start >= 2 && text.get_char(start) == '0' && text.get_char(start + 1) == 'x'
        invariant
            0 <= start <= len,
            len == text@.len(),
            HEX_PREFIX@ == seq!['0', 'x'],
            strip_prefix_all(text@, HEX_PREFIX@) == strip_prefix_all(
                text@.skip(start as int),
                HEX_PREFIX@,
            ),
        decreases len - start,
    {
        proof {
            let rest = text@.skip(start as int);
            assert(rest.subrange(0, 2) =~= HEX_PREFIX@);
            assert(rest.skip(2) =~= text@.skip(start + 2));
        }
        start = start + 2;
    }
    proof {
        let rest = text@.skip(start as int);
        if HEX_PREFIX@.is_prefix_of(rest) {
            assert(rest.subrange(0, 2)[0] == '0');
            assert(rest.subrange(0, 2)[1] == 'x');
        }
        assert(rest =~= text@.subrange(start as int, len as int));
    }
    Ok(String::from_str(text.substring_char(start, len)))
}

/// The value of a hexadecimal digit, of either case.
pub open spec fn hex_digit_value(c: char) -> Option<nat> {
    if '0' <= c <= '9' {
        Some((c as u32 - '0' as u32) as nat)
    } else if 'a' <= c <= 'f' {
        Some((c as u32 - 'a' as u32 + 10) as nat)
    } else if 'A' <= c <= 'F' {
        Some((c as u32 - 'A' as u32 + 10) as nat)
    } else {
        None
    }
}

/// The index at which the run of hexadecimal digits that starts at `from`
/// ends.
pub open spec fn hex_digits_end(text: Seq<char>, from: int) -> int
    decreases text.len() - from,
{
    if 0 <= from < text.len() && hex_digit_value(text[from]).is_some() {
        hex_digits_end(text, from + 1)
    } else {
        from
    }
}

/// The number that a string of hexadecimal digits stands for.
pub open spec fn hex_value(digits: Seq<char>) -> nat
    decreases digits.len(),
{
    if digits.len() == 0 {
        0
    } else {
        hex_value(digits.drop_last()) * 16 + hex_digit_value(digits.last()).unwrap_or(0)
    }
}

/// The number that a string stands for in base 16, within 64 bits with a
/// sign.
///
/// The string is an optional sign, `+` or `-`, and at least one digit.
/// The digits are read from the left. When the digits read so far already
/// leave the range, that is the error, whatever follows. Otherwise a
/// character that is no digit, or no digit at all, is the error.
pub open spec fn hex_number(text: Seq<char>) -> Result<int, AppError> {
    if text.len() == 0 {
        Err(AppError::EmptyHex)
    } else {
        let negative = text[0] == '-';
        let start: int = if text[0] == '-' || text[0] == '+' {
            1
        } else {
            0
        };
        let end = hex_digits_end(text, start);
        let magnitude = hex_value(text.subrange(start, end));
        if negative && magnitude > 0x8000_0000_0000_0000 {
            Err(AppError::HexTooSmall)
        } else if !negative && magnitude > 0x7fff_ffff_ffff_ffff {
            Err(AppError::HexTooLarge)
        } else if end < text.len() || start == text.len() {
            Err(AppError::InvalidHexDigit)
        } else if negative {
            Ok(-(magnitude as int))
        } else {
            Ok(magnitude as int)
        }
    }
}

/// The number that a result holds, if it holds one.
pub open spec fn number_of(result: Result<i64, AppError>) -> Result<int, AppError> {
    match result {
        Ok(number) => Ok(number as int),
        Err(error) => Err(error),
    }
}

/// Reads one hexadecimal digit.
pub fn hex_digit(c: char) -> (value: Option<u8>)
    ensures
        value.is_some() == hex_digit_value(c).is_some(),
        value matches Some(v) ==> v as nat == hex_digit_value(c).unwrap() && v < 16,
{
    if '0' <= c && c <= '9' {
        Some((c as u32 - '0' as u32) as u8)
    } else if 'a' <= c && c <= 'f' {
        Some((c as u32 - 'a' as u32 + 10) as u8)
    } else if 'A' <= c && c <= 'F' {
        Some((c as u32 - 'A' as u32 + 10) as u8)
    } else {
        None
    }
}

/// One more digit at the end multiplies the value by 16 and adds the digit.
proof fn lemma_hex_value_step(text: Seq<char>, start: int, end: int)
    requires
        0 <= start <= end < text.len(),
    ensures
        hex_value(text.subrange(start, end + 1)) == hex_value(text.subrange(start, end)) * 16
            + hex_digit_value(text[end]).unwrap_or(0),
{
    assert(text.subrange(start, end + 1).drop_last() =~= text.subrange(start, end));
}

/// Reading further digits never makes the value smaller.
proof fn lemma_hex_value_grows(text: Seq<char>, start: int, end: int, later: int)
    requires
        0 <= start <= end <= later <= text.len(),
    ensures
        hex_value(text.subrange(start, end)) <= hex_value(text.subrange(start, later)),
    decreases later - end,
{
    if end < later {
        lemma_hex_value_step(text, start, later - 1);
        lemma_hex_value_grows(text, start, end, later - 1);
        assert(hex_value(text.subrange(start, later - 1)) * 16 >= hex_value(
            text.subrange(start, later - 1),
        ));
    }
}

/// The run of digits that starts at `from` ends within the string, at or
/// after `from`.
proof fn lemma_hex_digits_end_bounds(text: Seq<char>, from: int)
    requires
        0 <= from <= text.len(),
    ensures
        from <= hex_digits_end(text, from) <= text.len(),
    decreases text.len() - from,
{
    if from < text.len() && hex_digit_value(text[from]).is_some() {
        lemma_hex_digits_end_bounds(text, from + 1);
    }
}

/// Reads a number in base 16, with an optional sign and without a prefix.
pub fn trimmed_hex_to_i64(hex_no_prefix: String) -> (number: Result<i64, AppError>)
    ensures
        number_of(number) == hex_number(hex_no_prefix@),
{
    let text = hex_no_prefix.as_str();
    let len = text.unicode_len();
    if len == 0 {
        return Err(AppError::EmptyHex);
    }
    let first = text.get_char(0);
    let negative = first == '-';
    let start: usize = if first == '-' || first == '+' {
        1
    } else {
        0
    };
    let limit: u64 = if negative {
        0x8000_0000_0000_0000
    } else {
        0x7fff_ffff_ffff_ffff
    };
    let mut magnitude: u64 = 0;
    let mut i: usize = start;
    assert(text@.subrange(start as int, start as int).len() == 0);
    while i < len
        invariant
            start <= i <= len,
            0 < len == text@.len(),
            text@ == hex_no_prefix@,
            negative == (text@[0] == '-'),
            start == if text@[0] == '-' || text@[0] == '+' {
                1int
            } else {
                0int
            },
            limit == if negative {
                0x8000_0000_0000_0000u64
            } else {
                0x7fff_ffff_ffff_ffffu64
            },
            magnitude <= limit,
            magnitude == hex_value(text@.subrange(start as int, i as int)),
            hex_digits_end(text@, start as int) == hex_digits_end(text@, i as int),
        decreases len - i,
    {
        match hex_digit(text.get_char(i)) {
            None => {
                return Err(AppError::InvalidHexDigit);
            },
            Some(digit) => {
                let next: u128 = magnitude as u128 * 16 + digit as u128;
                proof {
                    lemma_hex_value_step(text@, start as int, i as int);
                }
                if next > limit as u128 {
                    proof {
                        let end = hex_digits_end(text@, start as int);
                        lemma_hex_digits_end_bounds(text@, i + 1);
                        lemma_hex_value_grows(text@, start as int, i + 1, end);
                    }
                    if negative {
                        return Err(AppError::HexTooSmall);
                    } else {
                        return Err(AppError::HexTooLarge);
                    }
                }
                magnitude = next as u64;
            },
        }
        i = i + 1;
    }
    if start == len {
        return Err(AppError::InvalidHexDigit);
    }
    if negative {
        if magnitude == 0x8000_0000_0000_0000 {
            Ok(i64::MIN)
        } else {
            Ok(-(magnitude as i64))
        }
    } else {
        Ok(magnitude as i64)
    }
}

/// White space, as Unicode defines it.
pub open spec fn is_whitespace(c: char) -> bool {
    ||| '\u{0009}' <= c <= '\u{000D}'
    ||| c == ' '
    ||| c == '\u{0085}'
    ||| c == '\u{00A0}'
    ||| c == '\u{1680}'
    ||| '\u{2000}' <= c <= '\u{200A}'
    ||| c == '\u{2028}'
    ||| c == '\u{2029}'
    ||| c == '\u{202F}'
    ||| c == '\u{205F}'
    ||| c == '\u{3000}'
}

/// The index at which the run of white space that starts at `from` ends.
pub open spec fn whitespace_end(text: Seq<char>, from: int) -> int
    decreases text.len() - from,
{
    if 0 <= from < text.len() && is_whitespace(text[from]) {
        whitespace_end(text, from + 1)
    } else {
        from
    }
}

/// The index at which the run of white space that ends at `to` starts,
/// looking no further back than `floor`.
pub open spec fn whitespace_start(text: Seq<char>, to: int, floor: int) -> int
    decreases to - floor,
{
    if floor < to <= text.len() && is_whitespace(text[to - 1]) {
        whitespace_start(text, to - 1, floor)
    } else {
        to
    }
}

/// A string without the white space at its two ends.
pub open spec fn trimmed(text: Seq<char>) -> Seq<char> {
    let from = whitespace_end(text, 0);
    let to = whitespace_start(text, text.len() as int, from);
    text.subrange(from, to)
}

/// The answers that count as a yes.
pub open spec fn is_yes(word: Seq<char>) -> bool {
    word == "y"@ || word == "yes"@ || word == "Y"@ || word == "YES"@ || word == "Yes"@
}

/// Tells whether a character is white space.
pub fn whitespace(c: char) -> (white: bool)
    ensures
        white == is_whitespace(c),
{
    ('\u{0009}' <= c && c <= '\u{000D}') || c == ' ' || c == '\u{0085}' || c == '\u{00A0}' || c
        == '\u{1680}' || ('\u{2000}' <= c && c <= '\u{200A}') || c == '\u{2028}' || c
        == '\u{2029}' || c == '\u{202F}' || c == '\u{205F}' || c == '\u{3000}'
}

/// Tells whether two strings hold the same characters.
pub fn same_text(a: &str, b: &str) -> (same: bool)
    ensures
        same == (a@ == b@),
{
    let len = a.unicode_len();
    if len != b.unicode_len() {
        return false;
    }
    let mut i: usize = 0;
    while i < len
        invariant
            0 <= i <= len,
            len == a@.len(),
            len == b@.len(),
            forall|k: int| 0 <= k < i ==> a@[k] == b@[k],
        decreases len - i,
    {
        if a.get_char(i) != b.get_char(i) {
            return false;
        }
        i = i + 1;
    }
    assert(a@ =~= b@);
    true
}

/// Tells whether what the user typed, white space at its ends aside, is a
/// yes.
pub fn is_affirmative(answer: &str) -> (yes: bool)
    ensures
        yes == is_yes(trimmed(answer@)),
{
    let len = answer.unicode_len();
    let mut from: usize = 0;
    while from < len && whitespace(answer.get_char(from))
        invariant
            0 <= from <= len,
            len == answer@.len(),
            whitespace_end(answer@, 0) == whitespace_end(answer@, from as int),
        decreases len - from,
    {
        from = from + 1;
    }
    let mut to: usize = len;
    while from < to && whitespace(answer.get_char(to - 1))
        invariant
            from <= to <= len,
            len == answer@.len(),
            whitespace_start(answer@, len as int, from as int) == whitespace_start(
                answer@,
                to as int,
                from as int,
            ),
        decreases to - from,
    {
        to = to - 1;
    }
    let word = answer.substring_char(from, to);
    same_text(word, "y") || same_text(word, "yes") || same_text(word, "Y") || same_text(
        word,
        "YES",
    ) || same_text(word, "Yes")
}

} // verus!
