//! Addresses of the oracle program that publishes random bytes for flips,
//! and the reading of its request account. The oracle's seed prefixes, its
//! address and the layout of its request record are not part of this crate;
//! callers pass them in.
use vstd::prelude::*;

use vstd::string::StringSliceAdditionalSpecFns;

use crate::address::{found_view, program_address, sha256, sha256_digest, try_find_program_address};
use crate::key::Pubkey;

verus! {

/// The seeds of the oracle's vault for `authority`.
pub open spec fn oracle_vault_seeds(
    vault_prefix: Seq<u8>,
    authority: Seq<u8>,
    program_id: Seq<u8>,
) -> Seq<Seq<u8>> {
    seq![vault_prefix, authority, program_id]
}

/// The seeds of the oracle's request account for `authority`.
pub open spec fn requestor_seeds(requestor_prefix: Seq<u8>, authority: Seq<u8>) -> Seq<Seq<u8>> {
    seq![requestor_prefix, authority]
}

/// The address and bump of the oracle's vault for `authority`, owned by the
/// oracle program; `None` where no bump gives an address off the curve (a
/// prefix longer than 32 bytes gives none).
pub fn vault_pda(authority: &Pubkey, vault_prefix: &[u8], program_id: &Pubkey) -> (pda: Option<
    (Pubkey, u8),
>)
    ensures
        found_view(pda) == program_address(
            oracle_vault_seeds(vault_prefix@, authority@, program_id@),
            program_id@,
        ),
        vault_prefix@.len() > 32 ==> pda is None,
{
    let mut seeds: Vec<Vec<u8>> = Vec::new();
    seeds.push(vstd::slice::slice_to_vec(vault_prefix));
    seeds.push(vstd::slice::slice_to_vec(authority.bytes.as_slice()));
    seeds.push(vstd::slice::slice_to_vec(program_id.bytes.as_slice()));
    assert(seeds@.map_values(|s: Vec<u8>| s@) =~= oracle_vault_seeds(
        vault_prefix@,
        authority@,
        program_id@,
    ));
    assert(seeds@[0]@ == vault_prefix@);
    try_find_program_address(&seeds, program_id)
}

/// The address and bump of the oracle's request account for `authority`,
/// owned by the oracle program; `None` where no bump gives an address off
/// the curve (a prefix longer than 32 bytes gives none).
pub fn requestor_pda(authority: &Pubkey, requestor_prefix: &[u8], program_id: &Pubkey) -> (pda:
    Option<(Pubkey, u8)>)
    ensures
        found_view(pda) == program_address(
            requestor_seeds(requestor_prefix@, authority@),
            program_id@,
        ),
        requestor_prefix@.len() > 32 ==> pda is None,
{
    let mut seeds: Vec<Vec<u8>> = Vec::new();
    seeds.push(vstd::slice::slice_to_vec(requestor_prefix));
    seeds.push(vstd::slice::slice_to_vec(authority.bytes.as_slice()));
    assert(seeds@.map_values(|s: Vec<u8>| s@) =~= requestor_seeds(requestor_prefix@, authority@));
    assert(seeds@[0]@ == requestor_prefix@);
    try_find_program_address(&seeds, program_id)
}

/// Closes an oracle-owned account: all its lamports move to its creator.
pub fn remove_pda(creator_lamports: &mut u64, pda_lamports: &mut u64)
    requires
        *old(creator_lamports) + *old(pda_lamports) <= u64::MAX,
    ensures
        *final(creator_lamports) == *old(creator_lamports) + *old(pda_lamports),
        *final(pda_lamports) == 0,
{
    *creator_lamports += *pda_lamports;
    *pda_lamports = 0;
}

/// How many random bytes the oracle publishes for a request.
pub const RANDOM_LEN: usize = 64;

/// Why the oracle's request account is refused, in the order it is checked.
#[derive(Clone, Copy, Debug, PartialEq, Eq, Structural)]
pub enum OracleAccountError {
    /// The account does not belong to the oracle program.
    AccountOwnedByWrongProgram,
    /// The account is shorter than the record's tag.
    AccountDiscriminatorNotFound,
    /// The account's first bytes are not the record's tag.
    AccountDiscriminatorMismatch,
}

/// Where, after its tag, the oracle's request record keeps what a
/// settlement reads: the record's length, the offset of the random bytes
/// and the offset of the flag that the request is still open.
#[derive(Clone, Copy, Debug, PartialEq, Eq, Structural)]
pub struct RequesterLayout {
    pub record_len: usize,
    pub random_offset: usize,
    pub active_offset: usize,
}

/// The random bytes and the open flag lie inside the record.
pub open spec fn layout_fits(layout: RequesterLayout) -> bool {
    &&& layout.random_offset + RANDOM_LEN <= layout.record_len
    &&& layout.active_offset < layout.record_len
}

/// What a settlement reads from the oracle's request record.
#[derive(Clone, Debug)]
pub struct RequesterState {
    pub active_request: bool,
    pub random: Vec<u8>,
}

/// The checks of the oracle's request account, in order: its owner is the
/// oracle program, it holds the record's tag, and the tag is right.
pub open spec fn requester_check(
    owner: Seq<u8>,
    data: Seq<u8>,
    oracle_program: Seq<u8>,
    tag: Seq<u8>,
) -> Result<(), OracleAccountError> {
    if owner != oracle_program {
        Err(OracleAccountError::AccountOwnedByWrongProgram)
    } else if data.len() < tag.len() {
        Err(OracleAccountError::AccountDiscriminatorNotFound)
    } else if data.take(tag.len() as int) != tag {
        Err(OracleAccountError::AccountDiscriminatorMismatch)
    } else {
        Ok(())
    }
}

/// The account holds the whole record after its tag.
pub open spec fn requester_complete(data: Seq<u8>, tag: Seq<u8>, layout: RequesterLayout) -> bool {
    data.len() >= tag.len() + layout.record_len
}

/// Whether the first bytes of `data` are `tag`.
fn has_tag(data: &[u8], tag: &[u8]) -> (tagged: bool)
    requires
        data@.len() >= tag@.len(),
    ensures
        tagged == (data@.take(tag@.len() as int) == tag@),
{
    let mut i: usize = 0;
    while i < tag.len()
        invariant
            i <= tag@.len() <= data@.len(),
            forall|j: int| 0 <= j < i ==> data@[j] == tag@[j],
        decreases tag@.len() - i,
    {
        if data[i] != tag[i] {
            assert(data@.take(tag@.len() as int)[i as int] != tag@[i as int]);
            return false;
        }
        i = i + 1;
    }
    assert(data@.take(tag@.len() as int) =~= tag@);
    true
}

/// Reads the oracle's request account (its owner and bytes), checked
/// against the oracle program's address and the record's tag: whether the
/// request is still open, and the random bytes. `None` exactly where the
/// checks pass but the account is shorter than the whole record.
pub fn load_requester(
    owner: &Pubkey,
    data: &[u8],
    oracle_program: &Pubkey,
    tag: &[u8],
    layout: &RequesterLayout,
) -> (loaded: Option<Result<RequesterState, OracleAccountError>>)
    requires
        layout_fits(*layout),
    ensures
        loaded is None <==> requester_check(owner@, data@, oracle_program@, tag@) is Ok
            && !requester_complete(data@, tag@, *layout),
        requester_check(owner@, data@, oracle_program@, tag@) matches Err(e) ==> (loaded matches Some(
            Err(f),
        ) && f == e),
        requester_check(owner@, data@, oracle_program@, tag@) is Ok && requester_complete(
            data@,
            tag@,
            *layout,
        ) ==> (loaded matches Some(r) && r is Ok),
        loaded matches Some(Ok(state)) ==> {
            &&& requester_check(owner@, data@, oracle_program@, tag@) is Ok
            &&& state.active_request == (data@[tag@.len() + layout.active_offset] != 0)
            &&& state.random@ == data@.subrange(
                tag@.len() + layout.random_offset,
                tag@.len() + layout.random_offset + RANDOM_LEN,
            )
        },
{
    if !owner.key_eq(oracle_program) {
        return Some(Err(OracleAccountError::AccountOwnedByWrongProgram));
    }
    if data.len() < tag.len() {
        return Some(Err(OracleAccountError::AccountDiscriminatorNotFound));
    }
    if !has_tag(data, tag) {
        return Some(Err(OracleAccountError::AccountDiscriminatorMismatch));
    }
    if data.len() - tag.len() < layout.record_len {
        return None;
    }
    let start = tag.len() + layout.random_offset;
    let random = vstd::slice::slice_to_vec(vstd::slice::slice_subrange(data, start, start + RANDOM_LEN));
    let active_request = data[tag.len() + layout.active_offset] != 0;
    Some(Ok(RequesterState { active_request, random }))
}

/// The tag with which Anchor marks a record or an instruction named `name`
/// in `namespace`: the first 8 bytes of the SHA-256 digest of
/// `namespace:name`.
pub open spec fn anchor_tag(namespace: Seq<u8>, name: Seq<u8>) -> Seq<u8> {
    sha256_digest(namespace + seq![58u8] + name).take(8)
}

/// The tag of a record or an instruction named `name` in `namespace`.
pub fn anchor_discriminator(namespace: &str, name: &str) -> (tag: Vec<u8>)
    ensures
        tag@ == anchor_tag(namespace.spec_bytes(), name.spec_bytes()),
{
    let mut preimage = vstd::slice::slice_to_vec(namespace.as_bytes());
    preimage.push(58u8);
    let mut rest = vstd::slice::slice_to_vec(name.as_bytes());
    preimage.append(&mut rest);
    let digest = sha256(preimage.as_slice());
    let tag = vstd::slice::slice_to_vec(vstd::slice::slice_subrange(digest.as_slice(), 0, 8));
    assert(preimage@ =~= namespace.spec_bytes() + seq![58u8] + name.spec_bytes());
    assert(tag@ =~= sha256_digest(preimage@).take(8));
    tag
}

/// The tag of the oracle's request record.
pub fn requester_discriminator() -> (tag: Vec<u8>)
    ensures
        tag@ == anchor_tag("account".spec_bytes(), "Requester".spec_bytes()),
{
    anchor_discriminator("account", "Requester")
}

/// The tag of the oracle's `request_random` instruction.
pub fn request_random_discriminator() -> (tag: Vec<u8>)
    ensures
        tag@ == anchor_tag("global".spec_bytes(), "request_random".spec_bytes()),
{
    anchor_discriminator("global", "request_random")
}

/// The checks of the oracle's request account, one by one: an account the
/// oracle program does not own is refused first; then one shorter than the
/// tag; then one whose first bytes differ from the tag; an owned account that
/// starts with the tag passes.
pub proof fn law_requester_checks(
    owner: Seq<u8>,
    data: Seq<u8>,
    oracle_program: Seq<u8>,
    tag: Seq<u8>,
)
    ensures
        owner != oracle_program ==> requester_check(owner, data, oracle_program, tag) == Err::<
            (),
            OracleAccountError,
        >(OracleAccountError::AccountOwnedByWrongProgram),
        owner == oracle_program && data.len() < tag.len() ==> requester_check(
            owner,
            data,
            oracle_program,
            tag,
        ) == Err::<(), OracleAccountError>(OracleAccountError::AccountDiscriminatorNotFound),
        owner == oracle_program && data.len() >= tag.len() && (exists|i: int|
            0 <= i < tag.len() && data[i] != tag[i]) ==> requester_check(
            owner,
            data,
            oracle_program,
            tag,
        ) == Err::<(), OracleAccountError>(OracleAccountError::AccountDiscriminatorMismatch),
        owner == oracle_program && data.len() >= tag.len() && (forall|i: int|
            0 <= i < tag.len() ==> data[i] == tag[i]) ==> requester_check(
            owner,
            data,
            oracle_program,
            tag,
        ) is Ok,
{
    if owner == oracle_program && data.len() >= tag.len() {
        if forall|i: int| 0 <= i < tag.len() ==> data[i] == tag[i] {
            assert(data.take(tag.len() as int) =~= tag);
        } else {
            let i = choose|i: int| 0 <= i < tag.len() && data[i] != tag[i];
            assert(data.take(tag.len() as int)[i] != tag[i]);
        }
    }
}

} // verus!
