use crate::lottery::{sold, Lottery, Ticket};
use vstd::prelude::*;

verus! {

proof fn counts_follow_sales(states: Seq<Lottery>, tickets: Seq<Ticket>, n: int)
    requires
        states.len() == tickets.len() + 1,
        states[0].count == 0,
        forall|i: int|
            0 <= i < tickets.len() ==> sold(
                #[trigger] states[i],
                states[i + 1],
                tickets[i].submitter,
                tickets[i],
            ),
        0 <= n < states.len(),
    ensures
        states[n].count == n,
    decreases n,
{
    if n > 0 {
        counts_follow_sales(states, tickets, n - 1);
        assert(sold(states[n - 1], states[n], tickets[n - 1].submitter, tickets[n - 1]));
    }
}

/// Ordinals are dense: along any run of successful purchases on a freshly
/// opened round, the i-th ticket sold carries ordinal i, no ordinal is given
/// twice, and the ordinals handed out are exactly 0, 1, ..., count - 1.
pub proof fn ordinal_density(states: Seq<Lottery>, tickets: Seq<Ticket>)
    requires
        states.len() == tickets.len() + 1,
        states[0].count == 0,
        forall|i: int|
            0 <= i < tickets.len() ==> sold(
                #[trigger] states[i],
                states[i + 1],
                tickets[i].submitter,
                tickets[i],
            ),
    ensures
        states.last().count == tickets.len(),
        forall|i: int| 0 <= i < tickets.len() ==> #[trigger] tickets[i].idx == i,
        forall|i: int, j: int|
            0 <= i < j < tickets.len() ==> #[trigger] tickets[i].idx != #[trigger] tickets[j].idx,
        tickets.map_values(|t: Ticket| t.idx as int).to_set() =~= Set::new(
            |k: int| 0 <= k < states.last().count,
        ),
{
    assert forall|i: int| 0 <= i < tickets.len() implies #[trigger] tickets[i].idx == i by {
        counts_follow_sales(states, tickets, i);
        assert(sold(states[i], states[i + 1], tickets[i].submitter, tickets[i]));
    }
    counts_follow_sales(states, tickets, tickets.len() as int);
    let idxs = tickets.map_values(|t: Ticket| t.idx as int);
    assert forall|k: int| 0 <= k < states.last().count implies idxs.to_set().contains(k) by {
        assert(idxs[k] == k);
    }
    assert forall|k: int| idxs.to_set().contains(k) implies 0 <= k < states.last().count by {
        let i = idxs.index_of(k);
    }
}

} // verus!
