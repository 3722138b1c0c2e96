use vstd::prelude::*;

use crate::errors::TipperError;
use crate::states::{fill_buffer, zero_padded, Pubkey, State, Tipper};

verus! {

/// Whether `t` is exactly the record that creating a campaign from these
/// inputs produces: owned by `authority`, named by the bytes of `name` in a
/// zero-filled buffer, empty, open, capped at `max_balance`.
pub open spec fn fresh_tipper(
    t: Tipper,
    authority: Pubkey,
    name: Seq<u8>,
    max_balance: u64,
    bump: u8,
) -> bool
    recommends
        name.len() <= 32,
{
    &&& t.authority == authority
    &&& t.target_name@ == zero_padded(name)
    &&& t.target_name_len == name.len()
    &&& t.name_bytes() == name
    &&& t.balance == 0
    &&& t.max_balance == max_balance
    &&& t.state is Open
    &&& t.bump == bump
}

/// Creates a campaign record from validated inputs: the campaign registry's
/// part of `create campaign`, after the host has allocated storage at the
/// address derived from (name, authority) under `bump`.
///
/// Fails with `TargetNameTooLong` exactly when the name does not fit the
/// fixed 32-byte buffer; otherwise returns the fresh open record.
pub fn initialize_tipper(
    authority: Pubkey,
    target_name: &Vec<u8>,
    max_balance: u64,
    bump: u8,
) -> (r: Result<Tipper, TipperError>)
    ensures
        r is Err <==> target_name@.len() > 32,
        r is Err ==> r == Err::<Tipper, TipperError>(TipperError::TargetNameTooLong),
        r matches Ok(t) ==> fresh_tipper(t, authority, target_name@, max_balance, bump),
        r matches Ok(t) ==> t.wf(),
{
    if target_name.len() > 32 {
        return Err(TipperError::TargetNameTooLong);
    }
    let buf = fill_buffer(target_name);
    let t = Tipper {
        authority,
        target_name: buf,
        target_name_len: target_name.len() as u8,
        balance: 0,
        max_balance,
        state: State::Open,
        bump,
    };
    proof {
        assert(t.name_bytes() =~= target_name@);
    }
    Ok(t)
}

} // verus!
