use crate::error::ErrorCode;
use crate::key::Pubkey;
use vstd::prelude::*;

verus! {

/// One round of the lottery. Its pooled balance is held by the runtime beside
/// the record and is passed to the operations as a separate value.
#[derive(Clone, Copy, Debug, PartialEq, Eq)]
pub struct Lottery {
    /// The administrator who opened the round.
    pub authority: Pubkey,
    /// The only identity that may name the winning ticket.
    pub oracle: Pubkey,
    /// The winning ordinal, once the oracle has named one.
    pub winner_index: Option<u32>,
    /// Tickets sold so far; also the ordinal of the next ticket.
    pub count: u32,
    /// What each ticket costs.
    pub ticket_price: u64,
    /// Whether the pool has been paid out.
    pub settled: bool,
}

/// One purchase: who bought it and the ordinal it was given.
#[derive(Clone, Copy, Debug, PartialEq, Eq)]
pub struct Ticket {
    pub submitter: Pubkey,
    pub idx: u32,
}

/// A round as it is right after it was opened.
pub open spec fn opened(l: Lottery, admin: Pubkey, ticket_price: u64, oracle: Pubkey) -> bool {
    &&& l.authority == admin
    &&& l.oracle == oracle
    &&& l.ticket_price == ticket_price
    &&& l.count == 0
    &&& l.winner_index.is_none()
    &&& !l.settled
}

/// Why a purchase is refused, if it is. A buyer short of the price is
/// always told so; tickets stay on sale after the winner is named, until the
/// pool is paid out.
pub open spec fn buy_refusal(l: Lottery, pool: u64, funds: u64) -> Option<ErrorCode> {
    if funds < l.ticket_price {
        Some(ErrorCode::InsufficientFunds)
    } else if l.settled {
        Some(ErrorCode::AlreadySettled)
    } else if l.count == u32::MAX {
        Some(ErrorCode::AllocationFailure)
    } else if pool as int + l.ticket_price > u64::MAX {
        Some(ErrorCode::BalanceOverflow)
    } else {
        None
    }
}

/// A successful purchase turned `before` into `after` and issued `t` to `player`.
pub open spec fn sold(before: Lottery, after: Lottery, player: Pubkey, t: Ticket) -> bool {
    &&& before.count < u32::MAX
    &&& after == Lottery { count: (before.count + 1) as u32, ..before }
    &&& t.submitter == player
    &&& t.idx == before.count
}

/// Why the oracle's choice is refused, if it is.
pub open spec fn pick_refusal(l: Lottery, caller: Pubkey, winner: u32) -> Option<ErrorCode> {
    if caller@ != l.oracle@ {
        Some(ErrorCode::AuthorizationMismatch)
    } else if l.settled {
        Some(ErrorCode::AlreadySettled)
    } else if winner >= l.count {
        Some(ErrorCode::WinnerIndexOutOfRange)
    } else {
        None
    }
}

/// Whether `t`, presented by `winner`, is the winning ticket of `l`.
pub open spec fn holds_winning_ticket(l: Lottery, winner: Pubkey, t: Ticket) -> bool {
    t.submitter@ == winner@ && l.winner_index == Some(t.idx)
}

/// Why a payout is refused, if it is.
pub open spec fn payout_refusal(l: Lottery, pool: u64, winner: Pubkey, funds: u64, t: Ticket) -> Option<ErrorCode> {
    if !holds_winning_ticket(l, winner, t) {
        Some(ErrorCode::AuthorizationMismatch)
    } else if l.settled {
        Some(ErrorCode::AlreadySettled)
    } else if funds as int + pool > u64::MAX {
        Some(ErrorCode::BalanceOverflow)
    } else {
        None
    }
}

/// Opens a round run by `admin`, selling tickets at `ticket_price`, whose
/// winner is named by `oracle_pubkey`.
pub fn initialise_lottery(admin: &Pubkey, ticket_price: u64, oracle_pubkey: &Pubkey) -> (r: Lottery)
    ensures
        opened(r, *admin, ticket_price, *oracle_pubkey),
{
    Lottery {
        authority: *admin,
        oracle: *oracle_pubkey,
        winner_index: None,
        count: 0,
        ticket_price,
        settled: false,
    }
}

/// Sells the next ticket of `lottery` to `player`: the ticket price moves
/// from the player's balance into the pool, the ticket takes the current count
/// as its ordinal, and the count goes up by one.
pub fn buy_ticket(
    lottery: &mut Lottery,
    lottery_balance: &mut u64,
    player: &Pubkey,
    player_balance: &mut u64,
) -> (r: Result<Ticket, ErrorCode>)
    ensures
        r.is_err() <==> buy_refusal(*old(lottery), *old(lottery_balance), *old(player_balance)).is_some(),
        match r {
            Ok(t) => {
                &&& sold(*old(lottery), *final(lottery), *player, t)
                &&& *final(lottery_balance) == *old(lottery_balance) + old(lottery).ticket_price
                &&& *final(player_balance) == *old(player_balance) - old(lottery).ticket_price
            },
            Err(e) => {
                &&& buy_refusal(*old(lottery), *old(lottery_balance), *old(player_balance)) == Some(e)
                &&& *final(lottery) == *old(lottery)
                &&& *final(lottery_balance) == *old(lottery_balance)
                &&& *final(player_balance) == *old(player_balance)
            },
        },
        *old(player_balance) < old(lottery).ticket_price ==> {
            &&& r == Err::<Ticket, ErrorCode>(ErrorCode::InsufficientFunds)
            &&& *final(lottery) == *old(lottery)
            &&& *final(player_balance) == *old(player_balance)
        },
{
    let price = lottery.ticket_price;
    if *player_balance < price {
        return Err(ErrorCode::InsufficientFunds);
    }
    if lottery.settled {
        return Err(ErrorCode::AlreadySettled);
    }
    if lottery.count == u32::MAX {
        return Err(ErrorCode::AllocationFailure);
    }
    if *lottery_balance > u64::MAX - price {
        return Err(ErrorCode::BalanceOverflow);
    }
    *player_balance = *player_balance - price;
    *lottery_balance = *lottery_balance + price;
    let ticket = Ticket { submitter: *player, idx: lottery.count };
    lottery.count = lottery.count + 1;
    Ok(ticket)
}

/// Records the winning ordinal named by `oracle`. Only the round's oracle may
/// name it, only before the payout, and only among the tickets sold.
pub fn pick_winner(lottery: &mut Lottery, oracle: &Pubkey, winner: u32) -> (r: Result<(), ErrorCode>)
    ensures
        r.is_err() <==> pick_refusal(*old(lottery), *oracle, winner).is_some(),
        match r {
            Ok(_) => *final(lottery) == Lottery { winner_index: Some(winner), ..*old(lottery) },
            Err(e) => {
                &&& pick_refusal(*old(lottery), *oracle, winner) == Some(e)
                &&& *final(lottery) == *old(lottery)
            },
        },
        oracle@ != old(lottery).oracle@ ==> {
            &&& r == Err::<(), ErrorCode>(ErrorCode::AuthorizationMismatch)
            &&& final(lottery).winner_index == old(lottery).winner_index
        },
{
    if !oracle.same_as(&lottery.oracle) {
        return Err(ErrorCode::AuthorizationMismatch);
    }
    if lottery.settled {
        return Err(ErrorCode::AlreadySettled);
    }
    if winner >= lottery.count {
        return Err(ErrorCode::WinnerIndexOutOfRange);
    }
    lottery.winner_index = Some(winner);
    Ok(())
}

/// Pays the whole pool to `winner`, who presents `ticket`. The ticket must be
/// theirs and carry the winning ordinal. Returns the amount paid; the pool is
/// left empty and the round settled, so a second claim is refused.
pub fn pay_out_winner(
    lottery: &mut Lottery,
    lottery_balance: &mut u64,
    winner: &Pubkey,
    winner_balance: &mut u64,
    ticket: &Ticket,
) -> (r: Result<u64, ErrorCode>)
    ensures
        r.is_err() <==> payout_refusal(
            *old(lottery),
            *old(lottery_balance),
            *winner,
            *old(winner_balance),
            *ticket,
        ).is_some(),
        match r {
            Ok(amount) => {
                &&& amount == *old(lottery_balance)
                &&& *final(lottery_balance) == 0
                &&& *final(winner_balance) == *old(winner_balance) + amount
                &&& *final(lottery) == Lottery { settled: true, ..*old(lottery) }
            },
            Err(e) => {
                &&& payout_refusal(
                    *old(lottery),
                    *old(lottery_balance),
                    *winner,
                    *old(winner_balance),
                    *ticket,
                ) == Some(e)
                &&& *final(lottery) == *old(lottery)
                &&& *final(lottery_balance) == *old(lottery_balance)
                &&& *final(winner_balance) == *old(winner_balance)
            },
        },
        !holds_winning_ticket(*old(lottery), *winner, *ticket) ==> {
            &&& r == Err::<u64, ErrorCode>(ErrorCode::AuthorizationMismatch)
            &&& *final(lottery_balance) == *old(lottery_balance)
        },
{
    let owner_matches = ticket.submitter.same_as(winner);
    let index_matches = match lottery.winner_index {
        Some(w) => w == ticket.idx,
        None => false,
    };
    if !(owner_matches && index_matches) {
        return Err(ErrorCode::AuthorizationMismatch);
    }
    if lottery.settled {
        return Err(ErrorCode::AlreadySettled);
    }
    let balance = *lottery_balance;
    if *winner_balance > u64::MAX - balance {
        return Err(ErrorCode::BalanceOverflow);
    }
    *lottery_balance = 0;
    *winner_balance = *winner_balance + balance;
    lottery.settled = true;
    Ok(balance)
}

} // verus!
