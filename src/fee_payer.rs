use crate::error::ErrorCode;
use crate::key::Pubkey;
use vstd::prelude::*;

verus! {

/// Why a relayed transfer is refused, if it is.
pub open spec fn transfer_refusal(
    funds: u64,
    receiver: Pubkey,
    receiver_funds: u64,
    fixed_receiver: Pubkey,
    amount: u64,
) -> Option<ErrorCode> {
    if receiver@ != fixed_receiver@ {
        Some(ErrorCode::InvalidFixedDestination)
    } else if funds < amount {
        Some(ErrorCode::InsufficientFunds)
    } else if receiver_funds as int + amount > u64::MAX {
        Some(ErrorCode::BalanceOverflow)
    } else {
        None
    }
}

/// Moves `amount` from the fee payer to `receiver`, which must be the
/// configured destination `fixed_receiver`.
pub fn transfer_sol(
    fee_payer_balance: &mut u64,
    receiver: &Pubkey,
    receiver_balance: &mut u64,
    fixed_receiver: &Pubkey,
    amount: u64,
) -> (r: Result<(), ErrorCode>)
    ensures
        r.is_err() <==> transfer_refusal(
            *old(fee_payer_balance),
            *receiver,
            *old(receiver_balance),
            *fixed_receiver,
            amount,
        ).is_some(),
        match r {
            Ok(_) => {
                &&& *final(fee_payer_balance) == *old(fee_payer_balance) - amount
                &&& *final(receiver_balance) == *old(receiver_balance) + amount
            },
            Err(e) => {
                &&& transfer_refusal(
                    *old(fee_payer_balance),
                    *receiver,
                    *old(receiver_balance),
                    *fixed_receiver,
                    amount,
                ) == Some(e)
                &&& *final(fee_payer_balance) == *old(fee_payer_balance)
                &&& *final(receiver_balance) == *old(receiver_balance)
            },
        },
{
    if !receiver.same_as(fixed_receiver) {
        return Err(ErrorCode::InvalidFixedDestination);
    }
    if *fee_payer_balance < amount {
        return Err(ErrorCode::InsufficientFunds);
    }
    if *receiver_balance > u64::MAX - amount {
        return Err(ErrorCode::BalanceOverflow);
    }
    *fee_payer_balance = *fee_payer_balance - amount;
    *receiver_balance = *receiver_balance + amount;
    Ok(())
}

} // verus!
