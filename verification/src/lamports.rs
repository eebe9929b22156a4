use vstd::prelude::*;

verus! {

/// Closes a program-owned account: all its lamports move to the account
/// that created it. A balance that would pass `u64::MAX` overflows, which
/// `requires` leaves out.
pub fn remove_pda(creator_lamports: &mut u64, pda_lamports: &mut u64)
    requires
        *old(creator_lamports) + *old(pda_lamports) <= u64::MAX,
    ensures
        *final(creator_lamports) == *old(creator_lamports) + *old(pda_lamports),
        *final(pda_lamports) == 0,
        *final(creator_lamports) + *final(pda_lamports) == *old(creator_lamports) + *old(
            pda_lamports,
        ),
{
    *creator_lamports += *pda_lamports;
    *pda_lamports = 0;
}

} // verus!
