use vstd::prelude::*;

use crate::errors::TipperError;
use crate::states::{pubkey_eq, Pubkey, Tipper};

verus! {

/// The withdrawal on a single campaign record: only the owner may withdraw,
/// and a withdrawal drains the whole balance at once. On success the returned
/// amount is exactly the balance at the instant of the call — the sum the
/// host transfers from the campaign's held funds to the owner — and the
/// record's balance is zero; partial withdrawal is impossible. A non-owner is
/// refused and the record, balance included, is untouched.
///
/// Destruction of the drained record is the storage layer's part of the same
/// atomic operation; the ledger performs it.
pub fn withdraw(tipper: &mut Tipper, user: Pubkey) -> (r: Result<u64, TipperError>)
    ensures
        user@ != old(tipper).authority@ ==> r == Err::<u64, TipperError>(
            TipperError::Unauthorized,
        ) && *final(tipper) == *old(tipper),
        user@ == old(tipper).authority@ ==> r == Ok::<u64, TipperError>(old(tipper).balance)
            && *final(tipper) == (Tipper { balance: 0, ..*old(tipper) }),
        final(tipper).key() == old(tipper).key(),
        old(tipper).wf() ==> final(tipper).wf(),
{
    let balance = tipper.balance;
    if !pubkey_eq(&tipper.authority, &user) {
        return Err(TipperError::Unauthorized);
    }
    tipper.balance = 0;
    Ok(balance)
}

} // verus!
