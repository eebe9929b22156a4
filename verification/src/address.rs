use vstd::prelude::*;

use crate::key::Pubkey;

verus! {

/// The error type of `Pubkey::from_str` in `solana_pubkey` (base58 text of
/// the wrong size, or not base58 at all); carried through, never inspected.
#[verifier::external_type_specification]
#[verifier::external_body]
pub struct ExParsePubkeyError(anchor_lang::solana_program::pubkey::ParsePubkeyError);

/// The address and bump that `Pubkey::try_find_program_address` derives from
/// the seeds and the owning program's address, or `None` where it finds
/// none.
pub uninterp spec fn program_address(seeds: Seq<Seq<u8>>, program_id: Seq<u8>) -> Option<
    (Seq<u8>, u8),
>;

/// The value of a base58 digit (alphabet `1-9`, `A-H`, `J-N`, `P-Z`, `a-k`,
/// `m-z`), or -1 for any other character.
pub open spec fn base58_digit(c: char) -> int {
    if '1' <= c <= '9' {
        c as int - '1' as int
    } else if 'A' <= c <= 'H' {
        c as int - 'A' as int + 9
    } else if 'J' <= c <= 'N' {
        c as int - 'J' as int + 17
    } else if 'P' <= c <= 'Z' {
        c as int - 'P' as int + 22
    } else if 'a' <= c <= 'k' {
        c as int - 'a' as int + 33
    } else if 'm' <= c <= 'z' {
        c as int - 'm' as int + 44
    } else {
        -1
    }
}

/// The number that base58 text spells, most significant digit first.
pub open spec fn base58_value(text: Seq<char>) -> int
    decreases text.len(),
{
    if text.len() == 0 {
        0
    } else {
        base58_value(text.drop_last()) * 58 + base58_digit(text.last())
    }
}

/// The last `n` bytes of `value`, most significant first.
pub open spec fn big_endian(value: int, n: nat) -> Seq<u8>
    decreases n,
{
    if n == 0 {
        seq![]
    } else {
        big_endian(value / 256, (n - 1) as nat).push((value % 256) as u8)
    }
}

/// How many zero bytes `bytes` starts with.
pub open spec fn leading_zero_bytes(bytes: Seq<u8>) -> nat
    decreases bytes.len(),
{
    if bytes.len() == 0 || bytes[0] != 0 {
        0
    } else {
        1 + leading_zero_bytes(bytes.drop_first())
    }
}

/// The 32 big-endian bytes of the value of base58 text.
pub open spec fn key_bytes_of(text: Seq<char>) -> Seq<u8> {
    big_endian(base58_value(text), 32)
}

/// The 32-byte key that base58 text spells, or `None`: the text holds at
/// most 44 base58 digits, its value is below 2^256, and it starts with
/// exactly as many `1`s as the key starts with zero bytes (a key that is
/// all zeros is spelt by exactly 32 `1`s).
pub open spec fn base58_key(text: Seq<char>) -> Option<Seq<u8>> {
    let key = key_bytes_of(text);
    let zeros = leading_zero_bytes(key);
    if text.len() <= 44 && (forall|i: int| 0 <= i < text.len() ==> base58_digit(#[trigger] text[i])
        >= 0) && base58_value(text)
        < 115792089237316195423570985008687907853269984665640564039457584007913129639936int && (
    forall|i: int| 0 <= i < zeros ==> #[trigger] text[i] == '1') && (if zeros < 32 {
        text.len() > zeros && text[zeros as int] != '1'
    } else {
        text.len() == 32
    }) {
        Some(key)
    } else {
        None
    }
}

/// Calls `<Pubkey as FromStr>::from_str` of `solana_pubkey` (which decodes
/// with `five8::decode_32`). Claimed: it succeeds exactly where `base58_key`
/// gives a key, and then yields that key.
#[verifier::external_body]
pub(crate) fn parse_key(text: &str) -> (parsed: Result<
    Pubkey,
    anchor_lang::solana_program::pubkey::ParsePubkeyError,
>)
    ensures
        parsed is Ok <==> base58_key(text@) is Some,
        parsed matches Ok(key) ==> base58_key(text@) == Some(key@),
{
    match text.parse::<anchor_lang::prelude::Pubkey>() {
        Ok(key) => Ok(Pubkey { bytes: key.to_bytes() }),
        Err(e) => Err(e),
    }
}

/// The view of a found program address.
pub open spec fn found_view(found: Option<(Pubkey, u8)>) -> Option<(Seq<u8>, u8)> {
    match found {
        Some(f) => Some((f.0@, f.1)),
        None => None,
    }
}

/// Calls `Pubkey::try_find_program_address` of `solana_pubkey`. Claimed: the
/// result is `program_address` of the seeds' bytes and the program's
/// address; 16 seeds or more, or a seed longer than 32 bytes, give `None`.
/// Off-chain the source computes this itself; on-chain it hands the search
/// to the runtime, whose code is not here, and the `None` for such seeds
/// rests on the crate's documentation.
#[verifier::external_body]
pub(crate) fn try_find_program_address(seeds: &Vec<Vec<u8>>, program_id: &Pubkey) -> (found:
    Option<(Pubkey, u8)>)
    ensures
        found_view(found) == program_address(
            seeds@.map_values(|s: Vec<u8>| s@),
            program_id@,
        ),
        seeds@.len() >= 16 ==> found is None,
        (exists|i: int| 0 <= i < seeds@.len() && #[trigger] seeds@[i]@.len() > 32) ==> found is None,
{
    let slices: Vec<&[u8]> = seeds.iter().map(|s| s.as_slice()).collect();
    let owner = anchor_lang::prelude::Pubkey::new_from_array(program_id.bytes);
    match anchor_lang::prelude::Pubkey::try_find_program_address(&slices, &owner) {
        Some((address, bump)) => Some((Pubkey { bytes: address.to_bytes() }, bump)),
        None => None,
    }
}

/// The SHA-256 digest of some bytes, as `solana_sha256_hasher::hash` gives it.
pub uninterp spec fn sha256_digest(data: Seq<u8>) -> Seq<u8>;

/// Calls `hash` of `solana_sha256_hasher` (re-exported as
/// `solana_program::hash::hash`). Claimed: the 32 bytes are `sha256_digest`
/// of the data.
#[verifier::external_body]
pub(crate) fn sha256(data: &[u8]) -> (digest: [u8; 32])
    ensures
        digest@ == sha256_digest(data@),
{
    anchor_lang::solana_program::hash::hash(data).to_bytes()
}

} // verus!
