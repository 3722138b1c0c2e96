use vstd::prelude::*;

use crate::errors::TipperError;
use crate::states::{fill_buffer, zero_padded, Pubkey, State, Tip, Tipper, TipperKey};

verus! {

/// The first rule a tip of `amount` against campaign `t` breaks, if any,
/// checked in the order the ledger checks them: the campaign must be open,
/// the amount positive, and crediting it must not overflow the 64-bit
/// balance accumulator. The capacity ceiling is deliberately not here: it is
/// examined only after the tip is accepted.
pub open spec fn spec_tip_check(t: Tipper, amount: u64) -> Option<TipperError> {
    if !(t.state is Open) {
        Some(TipperError::TipperClosed)
    } else if amount == 0 {
        Some(TipperError::InvalidAmount)
    } else if t.balance + amount > u64::MAX {
        Some(TipperError::CapacityOverflow)
    } else {
        None
    }
}

/// The campaign record after a tip of `amount` is accepted: the balance grows
/// by the amount, and if the new balance passed the capacity ceiling the
/// campaign closes against later tips. The crossing tip itself is kept.
pub open spec fn spec_apply_tip(t: Tipper, amount: u64) -> Tipper
    recommends
        t.balance + amount <= u64::MAX,
{
    Tipper {
        balance: (t.balance + amount) as u64,
        state: if t.balance + amount > t.max_balance {
            State::Closed
        } else {
            t.state
        },
        ..t
    }
}

/// Whether `tip` is exactly the receipt recorded for a contribution of
/// `amount` with the bytes of `message`, by `author`, to the campaign whose
/// address seeds are `parent`.
pub open spec fn fresh_tip(
    tip: Tip,
    author: Pubkey,
    parent: TipperKey,
    amount: u64,
    message: Seq<u8>,
    bump: u8,
) -> bool
    recommends
        message.len() <= 32,
{
    &&& tip.author == author
    &&& tip.parent_tipper.key() == parent.key()
    &&& tip.amount == amount
    &&& tip.message@ == zero_padded(message)
    &&& tip.message_len == message.len()
    &&& tip.message_bytes() == message
    &&& tip.bump == bump
}

/// The preconditions of a tip, checked in order and without any effect: this
/// is the decision the ledger takes before it moves any funds.
pub fn check_tip(tipper: &Tipper, amount: u64) -> (r: Result<(), TipperError>)
    ensures
        r is Err <==> spec_tip_check(*tipper, amount) is Some,
        r is Err ==> r == Err::<(), TipperError>(spec_tip_check(*tipper, amount)->Some_0),
{
    if !(matches!(tipper.state, State::Open)) {
        return Err(TipperError::TipperClosed);
    }
    if amount == 0 {
        return Err(TipperError::InvalidAmount);
    }
    if tipper.balance > u64::MAX - amount {
        return Err(TipperError::CapacityOverflow);
    }
    Ok(())
}

/// The bookkeeping that follows a successful transfer of `amount` from
/// `author` to the campaign's held funds: credit the balance, close the
/// campaign if the new balance passed the capacity ceiling, and write the
/// receipt. Pure arithmetic on already-checked values; it cannot fail, so no
/// error path can leave the balance inconsistent with transferred funds.
pub fn apply_tip(
    tipper: &mut Tipper,
    author: Pubkey,
    amount: u64,
    message: &Vec<u8>,
    bump: u8,
) -> (tip: Tip)
    requires
        old(tipper).wf(),
        spec_tip_check(*old(tipper), amount) is None,
        message@.len() <= 32,
    ensures
        *final(tipper) == spec_apply_tip(*old(tipper), amount),
        final(tipper).wf(),
        final(tipper).key() == old(tipper).key(),
        fresh_tip(tip, author, old(tipper).record_key_spec(), amount, message@, bump),
        tip.wf(),
{
    if tipper.balance + amount > tipper.max_balance {
        tipper.state = State::Closed;
    }
    tipper.balance = tipper.balance + amount;
    let parent = tipper.record_key();
    let buf = fill_buffer(message);
    let tip = Tip {
        author,
        parent_tipper: parent,
        amount,
        message: buf,
        message_len: message.len() as u8,
        bump,
    };
    proof {
        assert(tip.message_bytes() =~= message@);
    }
    tip
}

/// One whole tip against a single campaign record, as the tip ledger runs it
/// once the host has allocated the receipt's storage: every precondition is
/// checked before any mutation, and on any error the record is untouched.
///
/// The fallible fund transfer that precedes the bookkeeping is the host's;
/// callers perform it between [`check_tip`] and [`apply_tip`], which this
/// function composes for a held balance that needs no external move.
pub fn add_tip(
    tipper: &mut Tipper,
    author: Pubkey,
    amount: u64,
    message: &Vec<u8>,
    bump: u8,
) -> (r: Result<Tip, TipperError>)
    requires
        old(tipper).wf(),
        message@.len() <= 32,
    ensures
        final(tipper).wf(),
        r is Err <==> spec_tip_check(*old(tipper), amount) is Some,
        r is Err ==> r == Err::<Tip, TipperError>(spec_tip_check(*old(tipper), amount)->Some_0)
            && *final(tipper) == *old(tipper),
        r matches Ok(tip) ==> {
            &&& *final(tipper) == spec_apply_tip(*old(tipper), amount)
            &&& final(tipper).balance == old(tipper).balance + amount
            &&& (final(tipper).state is Closed <==> old(tipper).balance + amount > old(
                tipper,
            ).max_balance)
            &&& final(tipper).key() == old(tipper).key()
            &&& fresh_tip(tip, author, old(tipper).record_key_spec(), amount, message@, bump)
            &&& tip.wf()
        },
{
    match check_tip(tipper, amount) {
        Err(e) => Err(e),
        Ok(()) => Ok(apply_tip(tipper, author, amount, message, bump)),
    }
}

} // verus!
