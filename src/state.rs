use vstd::prelude::*;

use crate::fees::fee_of;
use crate::types::{Event, EventStatus, LumentixError, Principal, Ticket};

verus! {

/// Per-event custody data: the escrow balance, the check-in validators, and
/// the signer-threshold release policy with its current approvals.
pub struct EventLedger {
    pub escrow: int,
    pub validators: Set<Principal>,
    /// Empty while no release policy has been configured.
    pub signers: Set<Principal>,
    /// Zero while no release policy has been configured.
    pub threshold: nat,
    pub approvals: Set<Principal>,
}

/// The whole state of the platform as a mathematical value. Event `id` is
/// `events[id - 1]` with its ledger at `ledgers[id - 1]`; ticket `id` is
/// `tickets[id - 1]`.
pub struct ContractState {
    pub admin: Option<Principal>,
    pub fee_bps: nat,
    pub platform_balance: int,
    pub events: Seq<Event>,
    pub ledgers: Seq<EventLedger>,
    pub tickets: Seq<Ticket>,
}

pub open spec fn text_ok(s: Seq<char>) -> bool {
    s.len() > 0
}

/// The legal moves of the event state machine. Completing requires the
/// clock to be past the event's end.
pub open spec fn transition_allowed(from: EventStatus, to: EventStatus, past_end: bool) -> bool {
    match (from, to) {
        (EventStatus::Draft, EventStatus::Published) => true,
        (EventStatus::Published, EventStatus::Cancelled) => true,
        (EventStatus::Published, EventStatus::Completed) => past_end,
        _ => false,
    }
}

/// The first failing input check of event creation, if any.
pub open spec fn create_error(
    name: Seq<char>,
    description: Seq<char>,
    location: Seq<char>,
    start_time: u64,
    end_time: u64,
    ticket_price: i128,
    max_tickets: u32,
) -> Option<LumentixError> {
    if !text_ok(name) || !text_ok(description) || !text_ok(location) {
        Some(LumentixError::EmptyString)
    } else if ticket_price <= 0 {
        Some(LumentixError::InvalidAmount)
    } else if max_tickets == 0 {
        Some(LumentixError::InvalidCapacity)
    } else if start_time >= end_time {
        Some(LumentixError::InvalidTimeRange)
    } else {
        None
    }
}

pub open spec fn event_ok(e: Event, id: int) -> bool {
    &&& e.id == id
    &&& text_ok(e.name@)
    &&& text_ok(e.description@)
    &&& text_ok(e.location@)
    &&& e.start_time < e.end_time
    &&& e.ticket_price > 0
    &&& e.max_tickets > 0
    &&& e.tickets_sold <= e.max_tickets
}

pub open spec fn ledger_ok(l: EventLedger) -> bool {
    &&& l.escrow >= 0
    &&& l.approvals.subset_of(l.signers)
    &&& l.threshold <= l.signers.len()
    &&& (l.threshold == 0 <==> l.signers.is_empty())
    &&& l.validators.finite()
    &&& l.signers.finite()
}

pub open spec fn ticket_ok(t: Ticket, id: int, n_events: int) -> bool {
    &&& t.id == id
    &&& 1 <= t.event_id <= n_events
    &&& !(t.used && t.refunded)
}

impl EventLedger {
    pub open spec fn empty() -> EventLedger {
        EventLedger {
            escrow: 0,
            validators: Set::empty(),
            signers: Set::empty(),
            threshold: 0,
            approvals: Set::empty(),
        }
    }

    /// Number of configured signers whose approval currently stands.
    pub open spec fn approval_count(self) -> nat {
        self.approvals.intersect(self.signers).len()
    }
}

impl ContractState {
    /// The invariants that every reachable state satisfies.
    pub open spec fn valid(self) -> bool {
        &&& self.fee_bps <= 10000
        &&& self.platform_balance >= 0
        &&& self.ledgers.len() == self.events.len()
        &&& forall|i: int| 0 <= i < self.events.len() ==> event_ok(#[trigger] self.events[i], i + 1)
        &&& forall|i: int| 0 <= i < self.ledgers.len() ==> ledger_ok(#[trigger] self.ledgers[i])
        &&& forall|i: int|
            0 <= i < self.tickets.len() ==> ticket_ok(
                #[trigger] self.tickets[i],
                i + 1,
                self.events.len() as int,
            )
    }

    pub open spec fn initial() -> ContractState {
        ContractState {
            admin: None,
            fee_bps: 0,
            platform_balance: 0,
            events: Seq::empty(),
            ledgers: Seq::empty(),
            tickets: Seq::empty(),
        }
    }

    pub open spec fn has_event(self, id: u64) -> bool {
        1 <= id <= self.events.len()
    }

    pub open spec fn event(self, id: u64) -> Event {
        self.events[id - 1]
    }

    pub open spec fn ledger(self, id: u64) -> EventLedger {
        self.ledgers[id - 1]
    }

    pub open spec fn has_ticket(self, id: u64) -> bool {
        1 <= id <= self.tickets.len()
    }

    pub open spec fn ticket(self, id: u64) -> Ticket {
        self.tickets[id - 1]
    }

    pub open spec fn with_event(self, id: u64, e: Event) -> ContractState {
        ContractState { events: self.events.update(id - 1, e), ..self }
    }

    pub open spec fn with_ledger(self, id: u64, l: EventLedger) -> ContractState {
        ContractState { ledgers: self.ledgers.update(id - 1, l), ..self }
    }

    pub open spec fn with_ticket(self, id: u64, t: Ticket) -> ContractState {
        ContractState { tickets: self.tickets.update(id - 1, t), ..self }
    }

    pub open spec fn with_status(self, id: u64, status: EventStatus) -> ContractState {
        self.with_event(id, Event { status: status, ..self.event(id) })
    }

    pub open spec fn with_escrow(self, id: u64, escrow: int) -> ContractState {
        self.with_ledger(id, EventLedger { escrow: escrow, ..self.ledger(id) })
    }

    /// Whether `p` may check tickets in for event `id`.
    pub open spec fn is_validator(self, id: u64, p: Principal) -> bool {
        self.has_event(id) && (p == self.event(id).organizer || self.ledger(id).validators.contains(p))
    }

    /// The check shared by all organizer-only operations on event `id`.
    pub open spec fn organizer_error(self, id: u64, caller: Principal) -> Option<LumentixError> {
        if !self.has_event(id) {
            Some(LumentixError::EventNotFound)
        } else if self.event(id).organizer != caller {
            Some(LumentixError::Unauthorized)
        } else {
            None
        }
    }

    pub open spec fn admin_error(self, caller: Principal) -> Option<LumentixError> {
        if self.admin != Some(caller) {
            Some(LumentixError::Unauthorized)
        } else {
            None
        }
    }

    // ---- event registry ----

    pub open spec fn after_create(
        self,
        organizer: Principal,
        name: String,
        description: String,
        location: String,
        start_time: u64,
        end_time: u64,
        ticket_price: i128,
        max_tickets: u32,
    ) -> ContractState {
        let e = Event {
            id: (self.events.len() + 1) as u64,
            organizer,
            name,
            description,
            location,
            start_time,
            end_time,
            ticket_price,
            max_tickets,
            tickets_sold: 0,
            status: EventStatus::Draft,
        };
        ContractState {
            events: self.events.push(e),
            ledgers: self.ledgers.push(EventLedger::empty()),
            ..self
        }
    }

    pub open spec fn update_status_error(
        self,
        id: u64,
        new_status: EventStatus,
        caller: Principal,
        now: u64,
    ) -> Option<LumentixError> {
        if self.organizer_error(id, caller) is Some {
            self.organizer_error(id, caller)
        } else if !transition_allowed(self.event(id).status, new_status, now > self.event(id).end_time) {
            Some(LumentixError::InvalidStatusTransition)
        } else {
            None
        }
    }

    pub open spec fn cancel_error(self, id: u64, caller: Principal) -> Option<LumentixError> {
        if self.organizer_error(id, caller) is Some {
            self.organizer_error(id, caller)
        } else if self.event(id).status != EventStatus::Published {
            Some(LumentixError::InvalidStatusTransition)
        } else {
            None
        }
    }

    pub open spec fn complete_error(self, id: u64, caller: Principal, now: u64) -> Option<LumentixError> {
        if self.organizer_error(id, caller) is Some {
            self.organizer_error(id, caller)
        } else if self.event(id).status != EventStatus::Published || now <= self.event(id).end_time {
            Some(LumentixError::InvalidStatusTransition)
        } else {
            None
        }
    }

    // ---- ticket registry ----

    pub open spec fn purchase_error(self, id: u64, amount: i128) -> Option<LumentixError> {
        if !self.has_event(id) {
            Some(LumentixError::EventNotFound)
        } else if self.event(id).status != EventStatus::Published {
            Some(LumentixError::InvalidStatusTransition)
        } else if self.event(id).tickets_sold >= self.event(id).max_tickets {
            Some(LumentixError::EventSoldOut)
        } else if amount < self.event(id).ticket_price {
            Some(LumentixError::InsufficientFunds)
        } else {
            None
        }
    }

    /// The balances that a purchase would credit stay within `i128`.
    pub open spec fn purchase_fits(self, id: u64, amount: i128) -> bool {
        self.purchase_error(id, amount) is None ==> {
            let fee = fee_of(amount as int, self.fee_bps as int);
            &&& self.ledger(id).escrow + (amount - fee) <= i128::MAX
            &&& self.platform_balance + fee <= i128::MAX
            &&& self.tickets.len() < u64::MAX
        }
    }

    pub open spec fn after_purchase(self, buyer: Principal, id: u64, amount: i128, now: u64) -> ContractState {
        let fee = fee_of(amount as int, self.fee_bps as int);
        let e = self.event(id);
        let l = self.ledger(id);
        let t = Ticket {
            id: (self.tickets.len() + 1) as u64,
            event_id: id,
            owner: buyer,
            purchase_time: now,
            used: false,
            refunded: false,
        };
        ContractState {
            platform_balance: self.platform_balance + fee,
            events: self.events.update(id - 1, Event { tickets_sold: (e.tickets_sold + 1) as u32, ..e }),
            ledgers: self.ledgers.update(id - 1, EventLedger { escrow: l.escrow + (amount - fee), ..l }),
            tickets: self.tickets.push(t),
            ..self
        }
    }

    pub open spec fn use_error(self, tid: u64, caller: Principal) -> Option<LumentixError> {
        if !self.has_ticket(tid) {
            Some(LumentixError::TicketNotFound)
        } else if self.ticket(tid).used {
            Some(LumentixError::TicketAlreadyUsed)
        } else if self.ticket(tid).refunded {
            Some(LumentixError::TicketRefunded)
        } else if !self.is_validator(self.ticket(tid).event_id, caller) {
            Some(LumentixError::Unauthorized)
        } else {
            None
        }
    }

    pub open spec fn transfer_error(self, tid: u64, from: Principal) -> Option<LumentixError> {
        if !self.has_ticket(tid) {
            Some(LumentixError::TicketNotFound)
        } else if self.ticket(tid).owner != from {
            Some(LumentixError::Unauthorized)
        } else if self.ticket(tid).used {
            Some(LumentixError::TicketAlreadyUsed)
        } else if self.ticket(tid).refunded {
            Some(LumentixError::TicketRefunded)
        } else {
            None
        }
    }

    pub open spec fn refund_error(self, tid: u64, buyer: Principal) -> Option<LumentixError> {
        if !self.has_ticket(tid) {
            Some(LumentixError::TicketNotFound)
        } else if self.ticket(tid).owner != buyer {
            Some(LumentixError::Unauthorized)
        } else if self.ticket(tid).used {
            Some(LumentixError::TicketAlreadyUsed)
        } else if self.ticket(tid).refunded {
            Some(LumentixError::RefundNotAllowed)
        } else if self.event(self.ticket(tid).event_id).status != EventStatus::Cancelled {
            Some(LumentixError::EventNotCancelled)
        } else if self.ledger(self.ticket(tid).event_id).escrow < self.event(
            self.ticket(tid).event_id,
        ).ticket_price {
            Some(LumentixError::InsufficientEscrow)
        } else {
            None
        }
    }

    pub open spec fn after_refund(self, tid: u64) -> ContractState {
        let t = self.ticket(tid);
        let id = t.event_id;
        let e = self.event(id);
        let l = self.ledger(id);
        ContractState {
            events: self.events.update(
                id - 1,
                Event { tickets_sold: if e.tickets_sold > 0 { (e.tickets_sold - 1) as u32 } else { 0 }, ..e },
            ),
            ledgers: self.ledgers.update(id - 1, EventLedger { escrow: l.escrow - e.ticket_price, ..l }),
            tickets: self.tickets.update(tid - 1, Ticket { refunded: true, ..t }),
            ..self
        }
    }

    pub open spec fn after_set_validator(self, id: u64, v: Principal, member: bool) -> ContractState {
        let l = self.ledger(id);
        self.with_ledger(
            id,
            EventLedger {
                validators: if member { l.validators.insert(v) } else { l.validators.remove(v) },
                ..l
            },
        )
    }

    // ---- escrow and fee ledger ----

    pub open spec fn release_error(self, id: u64, caller: Principal) -> Option<LumentixError> {
        if self.organizer_error(id, caller) is Some {
            self.organizer_error(id, caller)
        } else if self.event(id).status != EventStatus::Completed {
            Some(LumentixError::InvalidStatusTransition)
        } else if self.ledger(id).escrow == 0 {
            Some(LumentixError::EscrowAlreadyReleased)
        } else {
            None
        }
    }

    pub open spec fn set_fee_error(self, caller: Principal, fee_bps: u32) -> Option<LumentixError> {
        if self.admin_error(caller) is Some {
            self.admin_error(caller)
        } else if fee_bps > 10000 {
            Some(LumentixError::InvalidPlatformFee)
        } else {
            None
        }
    }

    pub open spec fn withdraw_error(self, caller: Principal) -> Option<LumentixError> {
        if self.admin_error(caller) is Some {
            self.admin_error(caller)
        } else if self.platform_balance == 0 {
            Some(LumentixError::NoPlatformFees)
        } else {
            None
        }
    }

    // ---- signer-threshold release ----

    pub open spec fn set_signers_error(
        self,
        id: u64,
        caller: Principal,
        signers: Seq<Principal>,
        threshold: u32,
    ) -> Option<LumentixError> {
        if self.organizer_error(id, caller) is Some {
            self.organizer_error(id, caller)
        } else if threshold == 0 || threshold > signers.to_set().len() {
            Some(LumentixError::InvalidThreshold)
        } else {
            None
        }
    }

    /// A new policy starts a fresh approval round.
    pub open spec fn after_set_signers(self, id: u64, signers: Seq<Principal>, threshold: u32) -> ContractState {
        let l = self.ledger(id);
        self.with_ledger(
            id,
            EventLedger {
                signers: signers.to_set(),
                threshold: threshold as nat,
                approvals: Set::empty(),
                ..l
            },
        )
    }

    pub open spec fn approve_error(self, id: u64, signer: Principal) -> Option<LumentixError> {
        if !self.has_event(id) {
            Some(LumentixError::EventNotFound)
        } else if self.ledger(id).threshold == 0 {
            Some(LumentixError::EscrowNotConfigured)
        } else if !self.ledger(id).signers.contains(signer) {
            Some(LumentixError::Unauthorized)
        } else {
            None
        }
    }

    pub open spec fn with_approvals(self, id: u64, approvals: Set<Principal>) -> ContractState {
        self.with_ledger(id, EventLedger { approvals: approvals, ..self.ledger(id) })
    }

    pub open spec fn distribute_error(self, id: u64) -> Option<LumentixError> {
        if !self.has_event(id) {
            Some(LumentixError::EventNotFound)
        } else if self.ledger(id).threshold == 0 {
            Some(LumentixError::EscrowNotConfigured)
        } else if self.ledger(id).approval_count() < self.ledger(id).threshold {
            Some(LumentixError::ThresholdNotMet)
        } else {
            None
        }
    }

    /// Funds leave escrow and every approval is cleared.
    pub open spec fn after_distribute(self, id: u64) -> ContractState {
        self.with_ledger(id, EventLedger { escrow: 0, approvals: Set::empty(), ..self.ledger(id) })
    }
}

} // verus!
