use vstd::prelude::*;

use crate::fees::fee_of;
use crate::state::{event_ok, ledger_ok, ticket_ok, ContractState};
use crate::types::{EventStatus, LumentixError, Principal};

verus! {

/// In every valid state, an event has sold no more tickets than its capacity.
/// Every operation of `LumentixContract` keeps the state valid.
pub proof fn lemma_tickets_sold_within_capacity(s: ContractState, id: u64)
    requires
        s.valid(),
        s.has_event(id),
    ensures
        0 <= s.event(id).tickets_sold <= s.event(id).max_tickets,
{
    assert(event_ok(s.events[id - 1], id as int));
}

/// In every valid state, no ticket is both used and refunded.
pub proof fn lemma_ticket_not_used_and_refunded(s: ContractState, tid: u64)
    requires
        s.valid(),
        s.has_ticket(tid),
    ensures
        !(s.ticket(tid).used && s.ticket(tid).refunded),
{
    assert(ticket_ok(s.tickets[tid - 1], tid as int, s.events.len() as int));
}

/// A successful purchase raises the event's sold count by one and its escrow
/// by the amount paid less the platform fee.
pub proof fn lemma_purchase_effect(
    s: ContractState,
    buyer: Principal,
    id: u64,
    amount: i128,
    now: u64,
)
    requires
        s.valid(),
        s.purchase_error(id, amount) is None,
    ensures
        ({
            let t = s.after_purchase(buyer, id, amount, now);
            &&& t.event(id).tickets_sold == s.event(id).tickets_sold + 1
            &&& t.ledger(id).escrow == s.ledger(id).escrow + amount - fee_of(
                amount as int,
                s.fee_bps as int,
            )
        }),
{
    assert(event_ok(s.events[id - 1], id as int));
}

/// A refund succeeds only for an unused, unrefunded ticket of a cancelled
/// event; afterwards the ticket is refunded and the sold count is one lower,
/// but never below zero.
pub proof fn lemma_refund_effect(s: ContractState, tid: u64, buyer: Principal)
    requires
        s.valid(),
        s.refund_error(tid, buyer) is None,
    ensures
        ({
            let t = s.ticket(tid);
            let e = s.event(t.event_id);
            let after = s.after_refund(tid);
            &&& e.status == EventStatus::Cancelled
            &&& !t.used
            &&& !t.refunded
            &&& after.ticket(tid).refunded
            &&& after.event(t.event_id).tickets_sold == (if e.tickets_sold > 0 {
                e.tickets_sold - 1
            } else {
                0
            })
        }),
{
    assert(ticket_ok(s.tickets[tid - 1], tid as int, s.events.len() as int));
}

/// Releasing an event's escrow empties it, so releasing again before any new
/// purchase fails with `EscrowAlreadyReleased`.
pub proof fn lemma_release_only_once(s: ContractState, organizer: Principal, id: u64)
    requires
        s.valid(),
        s.release_error(id, organizer) is None,
    ensures
        s.ledger(id).escrow > 0,
        s.with_escrow(id, 0).release_error(id, organizer) == Some(
            LumentixError::EscrowAlreadyReleased,
        ),
{
    assert(ledger_ok(s.ledgers[id - 1]));
}

/// A release by signer threshold leaves no approval standing, so the next
/// release needs a fresh round of approvals.
pub proof fn lemma_distribute_clears_approvals(s: ContractState, id: u64)
    requires
        s.valid(),
        s.distribute_error(id) is None,
    ensures
        s.after_distribute(id).ledger(id).approvals.is_empty(),
        s.after_distribute(id).ledger(id).escrow == 0,
        s.after_distribute(id).distribute_error(id) == Some(LumentixError::ThresholdNotMet),
{
    assert(ledger_ok(s.ledgers[id - 1]));
    let l = s.after_distribute(id).ledger(id);
    assert(l.approvals.intersect(l.signers) =~= Set::empty());
}

} // verus!
