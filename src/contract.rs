use vstd::prelude::*;

use crate::fees::platform_fee;
use crate::principals::{
    contains_principal, distinct_principals, insert_principal, remove_principal,
};
use crate::state::{create_error, event_ok, ledger_ok, ticket_ok, ContractState, EventLedger};
use crate::types::{Event, EventStatus, LumentixError, Payout, Principal, Ticket, TransferEvent};
use crate::validation::{
    validate_positive_amount, validate_positive_capacity, validate_string_not_empty,
    validate_time_range,
};

verus! {

broadcast use vstd::seq_lib::seq_to_set_is_finite;

/// Per-event custody data as stored. Each list holds no principal twice.
struct Ledger {
    escrow: i128,
    validators: Vec<Principal>,
    signers: Vec<Principal>,
    threshold: u32,
    approvals: Vec<Principal>,
}

impl Ledger {
    spec fn view(&self) -> EventLedger {
        EventLedger {
            escrow: self.escrow as int,
            validators: self.validators@.to_set(),
            signers: self.signers@.to_set(),
            threshold: self.threshold as nat,
            approvals: self.approvals@.to_set(),
        }
    }

    spec fn inv(&self) -> bool {
        &&& self.validators@.no_duplicates()
        &&& self.signers@.no_duplicates()
        &&& self.approvals@.no_duplicates()
    }

    fn new() -> (r: Ledger)
        ensures
            r.view() == EventLedger::empty(),
            r.inv(),
    {
        let r = Ledger {
            escrow: 0,
            validators: Vec::new(),
            signers: Vec::new(),
            threshold: 0,
            approvals: Vec::new(),
        };
        assert(r.validators@.to_set() =~= Set::empty());
        assert(r.approvals@.to_set() =~= Set::empty());
        r
    }
}

/// The platform: events, tickets, escrow, platform fees and release policies.
pub struct LumentixContract {
    admin: Option<Principal>,
    fee_bps: u32,
    platform_balance: i128,
    events: Vec<Event>,
    ledgers: Vec<Ledger>,
    tickets: Vec<Ticket>,
}

impl View for LumentixContract {
    type V = ContractState;

    closed spec fn view(&self) -> ContractState {
        ContractState {
            admin: self.admin,
            fee_bps: self.fee_bps as nat,
            platform_balance: self.platform_balance as int,
            events: self.events@,
            ledgers: self.ledgers@.map_values(|l: Ledger| l.view()),
            tickets: self.tickets@,
        }
    }
}

impl LumentixContract {
    /// Well-formedness: the state invariants plus the storage's own ones.
    pub open spec fn wf(&self) -> bool {
        self@.valid() && self.repr_ok()
    }

    pub closed spec fn repr_ok(&self) -> bool {
        forall|i: int| 0 <= i < self.ledgers@.len() ==> (#[trigger] self.ledgers@[i]).inv()
    }

    /// A platform with no admin, no events and no tickets.
    pub fn new() -> (r: Self)
        ensures
            r.wf(),
            r@ == ContractState::initial(),
    {
        let r = LumentixContract {
            admin: None,
            fee_bps: 0,
            platform_balance: 0,
            events: Vec::new(),
            ledgers: Vec::new(),
            tickets: Vec::new(),
        };
        assert(r@.ledgers =~= Seq::empty());
        r
    }

    /// Sets the admin once; a second call fails.
    pub fn initialize(&mut self, admin: Principal) -> (r: Result<(), LumentixError>)
        requires
            old(self).wf(),
        ensures
            final(self).wf(),
            r is Err <==> old(self)@.admin is Some,
            r is Err ==> r == Err::<(), LumentixError>(LumentixError::AlreadyInitialized)
                && final(self)@ == old(self)@,
            r is Ok ==> final(self)@ == (ContractState { admin: Some(admin), ..old(self)@ }),
    {
        if self.admin.is_some() {
            return Err(LumentixError::AlreadyInitialized);
        }
        self.admin = Some(admin);
        Ok(())
    }

    fn event_index(&self, id: u64) -> (r: Option<usize>)
        requires
            self.wf(),
        ensures
            r is Some <==> self@.has_event(id),
            r is Some ==> r.unwrap() == id - 1 && r.unwrap() < self.events@.len()
                && r.unwrap() < self.ledgers@.len(),
    {
        if id >= 1 && id <= self.events.len() as u64 {
            Some((id - 1) as usize)
        } else {
            None
        }
    }

    fn ticket_index(&self, id: u64) -> (r: Option<usize>)
        requires
            self.wf(),
        ensures
            r is Some <==> self@.has_ticket(id),
            r is Some ==> r.unwrap() == id - 1 && r.unwrap() < self.tickets@.len(),
    {
        if id >= 1 && id <= self.tickets.len() as u64 {
            Some((id - 1) as usize)
        } else {
            None
        }
    }

    /// Index of event `id` when `caller` is its organizer.
    fn organizer_index(&self, id: u64, caller: Principal) -> (r: Result<usize, LumentixError>)
        requires
            self.wf(),
        ensures
            match r {
                Ok(i) => self@.organizer_error(id, caller) is None && i == id - 1
                    && i < self.events@.len() && i < self.ledgers@.len(),
                Err(e) => self@.organizer_error(id, caller) == Some(e),
            },
    {
        match self.event_index(id) {
            None => Err(LumentixError::EventNotFound),
            Some(i) => {
                if self.events[i].organizer != caller {
                    Err(LumentixError::Unauthorized)
                } else {
                    Ok(i)
                }
            },
        }
    }

    /// Creates an event in `Draft` status and returns its id, the next in
    /// sequence from 1.
    pub fn create_event(
        &mut self,
        organizer: Principal,
        name: String,
        description: String,
        location: String,
        start_time: u64,
        end_time: u64,
        ticket_price: i128,
        max_tickets: u32,
    ) -> (r: Result<u64, LumentixError>)
        requires
            old(self).wf(),
            old(self)@.events.len() < u64::MAX,
        ensures
            final(self).wf(),
            match r {
                Ok(id) => create_error(
                    name@,
                    description@,
                    location@,
                    start_time,
                    end_time,
                    ticket_price,
                    max_tickets,
                ) is None && id == old(self)@.events.len() + 1 && final(self)@ == old(
                    self,
                )@.after_create(
                    organizer,
                    name,
                    description,
                    location,
                    start_time,
                    end_time,
                    ticket_price,
                    max_tickets,
                ),
                Err(e) => create_error(
                    name@,
                    description@,
                    location@,
                    start_time,
                    end_time,
                    ticket_price,
                    max_tickets,
                ) == Some(e) && final(self)@ == old(self)@,
            },
    {
        validate_string_not_empty(&name)?;
        validate_string_not_empty(&description)?;
        validate_string_not_empty(&location)?;
        validate_positive_amount(ticket_price)?;
        validate_positive_capacity(max_tickets)?;
        validate_time_range(start_time, end_time)?;

        let id = self.events.len() as u64 + 1;
        let ghost old_state = self@;
        let event = Event {
            id,
            organizer,
            name,
            description,
            location,
            start_time,
            end_time,
            ticket_price,
            max_tickets,
            tickets_sold: 0,
            status: EventStatus::Draft,
        };
        self.events.push(event);
        self.ledgers.push(Ledger::new());
        proof {
            let target = old_state.after_create(
                organizer,
                name,
                description,
                location,
                start_time,
                end_time,
                ticket_price,
                max_tickets,
            );
            assert(self@.ledgers =~= target.ledgers);
            assert(self@.events =~= target.events);
            assert(self@ == target);
            assert forall|i: int| 0 <= i < self@.events.len() implies event_ok(
                #[trigger] self@.events[i],
                i + 1,
            ) by {
                if i < old_state.events.len() {
                    assert(self@.events[i] == old_state.events[i]);
                }
            }
            assert forall|i: int| 0 <= i < self@.ledgers.len() implies ledger_ok(
                #[trigger] self@.ledgers[i],
            ) by {
                if i < old_state.ledgers.len() {
                    assert(self@.ledgers[i] == old_state.ledgers[i]);
                }
            }
            assert forall|i: int| 0 <= i < self@.tickets.len() implies ticket_ok(
                #[trigger] self@.tickets[i],
                i + 1,
                self@.events.len() as int,
            ) by {
                assert(ticket_ok(old_state.tickets[i], i + 1, old_state.events.len() as int));
            }
            assert forall|i: int| 0 <= i < self.ledgers@.len() implies (
            #[trigger] self.ledgers@[i]).inv() by {
                if i < self.ledgers@.len() - 1 {
                    assert(self.ledgers@[i] == old(self).ledgers@[i]);
                }
            }
        }
        Ok(id)
    }

    /// Moves event `id` to `new_status` along a legal transition; only its
    /// organizer may.
    pub fn update_event_status(
        &mut self,
        id: u64,
        new_status: EventStatus,
        caller: Principal,
        now: u64,
    ) -> (r: Result<(), LumentixError>)
        requires
            old(self).wf(),
        ensures
            final(self).wf(),
            match r {
                Ok(_) => old(self)@.update_status_error(id, new_status, caller, now) is None
                    && final(self)@ == old(self)@.with_status(id, new_status),
                Err(e) => old(self)@.update_status_error(id, new_status, caller, now) == Some(e)
                    && final(self)@ == old(self)@,
            },
    {
        let i = self.organizer_index(id, caller)?;
        let current = self.events[i].status;
        let allowed = match (current, new_status) {
            (EventStatus::Draft, EventStatus::Published) => true,
            (EventStatus::Published, EventStatus::Cancelled) => true,
            (EventStatus::Published, EventStatus::Completed) => now > self.events[i].end_time,
            _ => false,
        };
        if !allowed {
            return Err(LumentixError::InvalidStatusTransition);
        }
        self.set_status(i, new_status);
        Ok(())
    }

    fn set_status(&mut self, i: usize, status: EventStatus)
        requires
            old(self).wf(),
            i < old(self)@.events.len(),
        ensures
            final(self).wf(),
            final(self)@ == old(self)@.with_status((i + 1) as u64, status),
    {
        let ghost old_state = self@;
        self.events[i].status = status;
        proof {
            let target = old_state.with_status((i + 1) as u64, status);
            assert(self@.events =~= target.events);
            assert(self@.ledgers =~= target.ledgers);
            assert forall|j: int| 0 <= j < self@.events.len() implies event_ok(
                #[trigger] self@.events[j],
                j + 1,
            ) by {
                assert(event_ok(old_state.events[j], j + 1));
            }
            assert forall|j: int| 0 <= j < self@.tickets.len() implies ticket_ok(
                #[trigger] self@.tickets[j],
                j + 1,
                self@.events.len() as int,
            ) by {
                assert(ticket_ok(old_state.tickets[j], j + 1, old_state.events.len() as int));
            }
        }
    }

    /// Cancels a published event; only its organizer may. Escrow stays for
    /// per-ticket refunds.
    pub fn cancel_event(&mut self, organizer: Principal, id: u64) -> (r: Result<
        (),
        LumentixError,
    >)
        requires
            old(self).wf(),
        ensures
            final(self).wf(),
            match r {
                Ok(_) => old(self)@.cancel_error(id, organizer) is None && final(self)@ == old(
                    self,
                )@.with_status(id, EventStatus::Cancelled),
                Err(e) => old(self)@.cancel_error(id, organizer) == Some(e) && final(self)@ == old(
                    self,
                )@,
            },
    {
        let i = self.organizer_index(id, organizer)?;
        if self.events[i].status != EventStatus::Published {
            return Err(LumentixError::InvalidStatusTransition);
        }
        self.set_status(i, EventStatus::Cancelled);
        Ok(())
    }

    /// Completes a published event once `now` is past its end; only its
    /// organizer may.
    pub fn complete_event(&mut self, organizer: Principal, id: u64, now: u64) -> (r: Result<
        (),
        LumentixError,
    >)
        requires
            old(self).wf(),
        ensures
            final(self).wf(),
            match r {
                Ok(_) => old(self)@.complete_error(id, organizer, now) is None && final(self)@
                    == old(self)@.with_status(id, EventStatus::Completed),
                Err(e) => old(self)@.complete_error(id, organizer, now) == Some(e) && final(self)@
                    == old(self)@,
            },
    {
        let i = self.organizer_index(id, organizer)?;
        if self.events[i].status != EventStatus::Published {
            return Err(LumentixError::InvalidStatusTransition);
        }
        if now <= self.events[i].end_time {
            return Err(LumentixError::InvalidStatusTransition);
        }
        self.set_status(i, EventStatus::Completed);
        Ok(())
    }

    /// The record of event `id`.
    pub fn get_event(&self, id: u64) -> (r: Result<Event, LumentixError>)
        requires
            self.wf(),
        ensures
            match r {
                Ok(e) => self@.has_event(id) && e == self@.event(id),
                Err(e) => !self@.has_event(id) && e == LumentixError::EventNotFound,
            },
    {
        match self.event_index(id) {
            None => Err(LumentixError::EventNotFound),
            Some(i) => Ok(self.events[i].clone()),
        }
    }

    /// Tickets still on sale for event `id`.
    pub fn get_availability(&self, id: u64) -> (r: Result<u32, LumentixError>)
        requires
            self.wf(),
        ensures
            match r {
                Ok(n) => self@.has_event(id) && n == self@.event(id).max_tickets
                    - self@.event(id).tickets_sold,
                Err(e) => !self@.has_event(id) && e == LumentixError::EventNotFound,
            },
    {
        match self.event_index(id) {
            None => Err(LumentixError::EventNotFound),
            Some(i) => {
                assert(event_ok(self@.events[i as int], i + 1));
                Ok(self.events[i].max_tickets - self.events[i].tickets_sold)
            },
        }
    }
}

impl LumentixContract {
    /// Sells a ticket for event `id` to `buyer`, who pays `amount` at time
    /// `now`. The platform keeps its fee; the rest goes to the event's
    /// escrow. Returns the new ticket's id, the next in sequence from 1.
    pub fn purchase_ticket(&mut self, buyer: Principal, id: u64, amount: i128, now: u64) -> (r:
        Result<u64, LumentixError>)
        requires
            old(self).wf(),
            old(self)@.purchase_fits(id, amount),
        ensures
            final(self).wf(),
            match r {
                Ok(tid) => old(self)@.purchase_error(id, amount) is None && tid == old(
                    self,
                )@.tickets.len() + 1 && final(self)@ == old(self)@.after_purchase(
                    buyer,
                    id,
                    amount,
                    now,
                ),
                Err(e) => old(self)@.purchase_error(id, amount) == Some(e) && final(self)@ == old(
                    self,
                )@,
            },
    {
        let i = match self.event_index(id) {
            None => {
                return Err(LumentixError::EventNotFound);
            },
            Some(i) => i,
        };
        if self.events[i].status != EventStatus::Published {
            return Err(LumentixError::InvalidStatusTransition);
        }
        if self.events[i].tickets_sold >= self.events[i].max_tickets {
            return Err(LumentixError::EventSoldOut);
        }
        if amount < self.events[i].ticket_price {
            return Err(LumentixError::InsufficientFunds);
        }
        let ghost old_state = self@;
        assert(event_ok(old_state.events[i as int], i + 1));
        assert(ledger_ok(old_state.ledgers[i as int]));
        assert(self.ledgers@[i as int].view() == old_state.ledgers[i as int]);
        let fee = platform_fee(amount, self.fee_bps);
        let escrow_amount = amount - fee;
        self.platform_balance = self.platform_balance + fee;
        self.ledgers[i].escrow = self.ledgers[i].escrow + escrow_amount;
        self.events[i].tickets_sold = self.events[i].tickets_sold + 1;
        let tid = self.tickets.len() as u64 + 1;
        self.tickets.push(
            Ticket { id: tid, event_id: id, owner: buyer, purchase_time: now, used: false, refunded: false },
        );
        proof {
            let target = old_state.after_purchase(buyer, id, amount, now);
            assert(self@.events =~= target.events);
            assert(self@.ledgers =~= target.ledgers);
            assert(self@.tickets =~= target.tickets);
            assert forall|j: int| 0 <= j < self@.events.len() implies event_ok(
                #[trigger] self@.events[j],
                j + 1,
            ) by {
                assert(event_ok(old_state.events[j], j + 1));
            }
            assert forall|j: int| 0 <= j < self@.ledgers.len() implies ledger_ok(
                #[trigger] self@.ledgers[j],
            ) by {
                assert(ledger_ok(old_state.ledgers[j]));
            }
            assert forall|j: int| 0 <= j < self@.tickets.len() implies ticket_ok(
                #[trigger] self@.tickets[j],
                j + 1,
                self@.events.len() as int,
            ) by {
                if j < old_state.tickets.len() {
                    assert(ticket_ok(old_state.tickets[j], j + 1, old_state.events.len() as int));
                }
            }
            assert forall|j: int| 0 <= j < self.ledgers@.len() implies (
            #[trigger] self.ledgers@[j]).inv() by {
                assert(old(self).ledgers@[j].inv());
            }
        }
        Ok(tid)
    }

    fn set_ticket(&mut self, ti: usize, t: Ticket)
        requires
            old(self).wf(),
            ti < old(self)@.tickets.len(),
            ticket_ok(t, ti + 1, old(self)@.events.len() as int),
        ensures
            final(self).wf(),
            final(self)@ == old(self)@.with_ticket((ti + 1) as u64, t),
    {
        let ghost old_state = self@;
        self.tickets.set(ti, t);
        proof {
            let target = old_state.with_ticket((ti + 1) as u64, t);
            assert(self@.tickets =~= target.tickets);
            assert(self@.ledgers =~= target.ledgers);
            assert forall|j: int| 0 <= j < self@.tickets.len() implies ticket_ok(
                #[trigger] self@.tickets[j],
                j + 1,
                self@.events.len() as int,
            ) by {
                if j != ti {
                    assert(ticket_ok(old_state.tickets[j], j + 1, old_state.events.len() as int));
                }
            }
        }
    }

    /// Whether `p` may check tickets in for event `id`: its organizer or one
    /// of its validators.
    pub fn is_authorized_validator(&self, id: u64, p: Principal) -> (r: bool)
        requires
            self.wf(),
        ensures
            r == self@.is_validator(id, p),
    {
        match self.event_index(id) {
            None => false,
            Some(i) => {
                assert(self.ledgers@[i as int].view() == self@.ledgers[i as int]);
                self.events[i].organizer == p || contains_principal(&self.ledgers[i].validators, p)
            },
        }
    }

    /// Checks ticket `tid` in; `caller` must be a validator of its event.
    pub fn use_ticket(&mut self, tid: u64, caller: Principal) -> (r: Result<(), LumentixError>)
        requires
            old(self).wf(),
        ensures
            final(self).wf(),
            match r {
                Ok(_) => old(self)@.use_error(tid, caller) is None && final(self)@ == old(
                    self,
                )@.with_ticket(tid, Ticket { used: true, ..old(self)@.ticket(tid) }),
                Err(e) => old(self)@.use_error(tid, caller) == Some(e) && final(self)@ == old(
                    self,
                )@,
            },
    {
        let ti = match self.ticket_index(tid) {
            None => {
                return Err(LumentixError::TicketNotFound);
            },
            Some(ti) => ti,
        };
        let t = self.tickets[ti];
        if t.used {
            return Err(LumentixError::TicketAlreadyUsed);
        }
        if t.refunded {
            return Err(LumentixError::TicketRefunded);
        }
        if !self.is_authorized_validator(t.event_id, caller) {
            return Err(LumentixError::Unauthorized);
        }
        assert(ticket_ok(self@.tickets[ti as int], ti + 1, self@.events.len() as int));
        self.set_ticket(ti, Ticket { used: true, ..t });
        Ok(())
    }

    /// Hands ticket `tid` from its owner `from` to `to`; a used or refunded
    /// ticket stays put. Returns the record of the transfer.
    pub fn transfer_ticket(&mut self, tid: u64, from: Principal, to: Principal) -> (r: Result<
        TransferEvent,
        LumentixError,
    >)
        requires
            old(self).wf(),
        ensures
            final(self).wf(),
            match r {
                Ok(ev) => old(self)@.transfer_error(tid, from) is None && ev == (TransferEvent {
                    ticket_id: tid,
                    from,
                    to,
                }) && final(self)@ == old(self)@.with_ticket(
                    tid,
                    Ticket { owner: to, ..old(self)@.ticket(tid) },
                ),
                Err(e) => old(self)@.transfer_error(tid, from) == Some(e) && final(self)@ == old(
                    self,
                )@,
            },
    {
        let ti = match self.ticket_index(tid) {
            None => {
                return Err(LumentixError::TicketNotFound);
            },
            Some(ti) => ti,
        };
        let t = self.tickets[ti];
        if t.owner != from {
            return Err(LumentixError::Unauthorized);
        }
        if t.used {
            return Err(LumentixError::TicketAlreadyUsed);
        }
        if t.refunded {
            return Err(LumentixError::TicketRefunded);
        }
        assert(ticket_ok(self@.tickets[ti as int], ti + 1, self@.events.len() as int));
        self.set_ticket(ti, Ticket { owner: to, ..t });
        Ok(TransferEvent { ticket_id: tid, from, to })
    }

    /// Refunds ticket `tid` of a cancelled event to its owner `buyer`: the
    /// ticket price leaves escrow and the seat is freed.
    pub fn refund_ticket(&mut self, tid: u64, buyer: Principal) -> (r: Result<(), LumentixError>)
        requires
            old(self).wf(),
        ensures
            final(self).wf(),
            match r {
                Ok(_) => old(self)@.refund_error(tid, buyer) is None && final(self)@ == old(
                    self,
                )@.after_refund(tid),
                Err(e) => old(self)@.refund_error(tid, buyer) == Some(e) && final(self)@ == old(
                    self,
                )@,
            },
    {
        let ti = match self.ticket_index(tid) {
            None => {
                return Err(LumentixError::TicketNotFound);
            },
            Some(ti) => ti,
        };
        let t = self.tickets[ti];
        if t.owner != buyer {
            return Err(LumentixError::Unauthorized);
        }
        if t.used {
            return Err(LumentixError::TicketAlreadyUsed);
        }
        if t.refunded {
            return Err(LumentixError::RefundNotAllowed);
        }
        let ghost old_state = self@;
        assert(ticket_ok(old_state.tickets[ti as int], ti + 1, old_state.events.len() as int));
        assert(t == old_state.tickets[ti as int]);
        assert(1 <= t.event_id <= self.events@.len());
        let i = match self.event_index(t.event_id) {
            None => {
                return Err(LumentixError::EventNotFound);
            },
            Some(i) => i,
        };
        if self.events[i].status != EventStatus::Cancelled {
            return Err(LumentixError::EventNotCancelled);
        }
        let price = self.events[i].ticket_price;
        assert(self.ledgers@[i as int].view() == old_state.ledgers[i as int]);
        if self.ledgers[i].escrow < price {
            return Err(LumentixError::InsufficientEscrow);
        }
        assert(event_ok(old_state.events[i as int], i + 1));
        self.ledgers[i].escrow = self.ledgers[i].escrow - price;
        let sold = self.events[i].tickets_sold;
        self.events[i].tickets_sold = if sold > 0 {
            sold - 1
        } else {
            0
        };
        self.tickets.set(ti, Ticket { refunded: true, ..t });
        proof {
            let target = old_state.after_refund(tid);
            assert(self@.events =~= target.events);
            assert(self@.ledgers =~= target.ledgers);
            assert(self@.tickets =~= target.tickets);
            assert forall|j: int| 0 <= j < self@.events.len() implies event_ok(
                #[trigger] self@.events[j],
                j + 1,
            ) by {
                assert(event_ok(old_state.events[j], j + 1));
            }
            assert forall|j: int| 0 <= j < self@.ledgers.len() implies ledger_ok(
                #[trigger] self@.ledgers[j],
            ) by {
                assert(ledger_ok(old_state.ledgers[j]));
            }
            assert forall|j: int| 0 <= j < self@.tickets.len() implies ticket_ok(
                #[trigger] self@.tickets[j],
                j + 1,
                self@.events.len() as int,
            ) by {
                assert(ticket_ok(old_state.tickets[j], j + 1, old_state.events.len() as int));
            }
            assert forall|j: int| 0 <= j < self.ledgers@.len() implies (
            #[trigger] self.ledgers@[j]).inv() by {
                assert(old(self).ledgers@[j].inv());
            }
        }
        Ok(())
    }

    /// The record of ticket `tid`.
    pub fn get_ticket_info(&self, tid: u64) -> (r: Result<Ticket, LumentixError>)
        requires
            self.wf(),
        ensures
            match r {
                Ok(t) => self@.has_ticket(tid) && t == self@.ticket(tid),
                Err(e) => !self@.has_ticket(tid) && e == LumentixError::TicketNotFound,
            },
    {
        match self.ticket_index(tid) {
            None => Err(LumentixError::TicketNotFound),
            Some(ti) => Ok(self.tickets[ti]),
        }
    }
}

impl LumentixContract {
    /// Replaces the ledger of the event at index `i`.
    fn set_ledger(&mut self, id: u64, i: usize, l: Ledger)
        requires
            old(self).wf(),
            i < old(self)@.events.len(),
            i == id - 1,
            l.inv(),
            ledger_ok(l.view()),
        ensures
            final(self).wf(),
            final(self)@ == old(self)@.with_ledger(id, l.view()),
    {
        let ghost old_state = self@;
        self.ledgers.set(i, l);
        proof {
            let target = old_state.with_ledger(id, l.view());
            assert(self@.ledgers =~= target.ledgers);
            assert forall|j: int| 0 <= j < self@.ledgers.len() implies ledger_ok(
                #[trigger] self@.ledgers[j],
            ) by {
                if j != i {
                    assert(ledger_ok(old_state.ledgers[j]));
                }
            }
            assert forall|j: int| 0 <= j < self.ledgers@.len() implies (
            #[trigger] self.ledgers@[j]).inv() by {
                if j != i {
                    assert(old(self).ledgers@[j].inv());
                }
            }
        }
    }

    /// Takes the ledger of the event at index `i` out for an update, leaving
    /// an empty one in its place.
    fn take_ledger(&mut self, id: u64, i: usize) -> (l: Ledger)
        requires
            old(self).wf(),
            i < old(self)@.events.len(),
            i == id - 1,
        ensures
            l.inv(),
            l.view() == old(self)@.ledgers[i as int],
            ledger_ok(l.view()),
            final(self).repr_ok(),
            final(self)@ == old(self)@.with_ledger(id, EventLedger::empty()),
            final(self)@.events.len() == old(self)@.events.len(),
    {
        assert(old(self).ledgers@[i as int].inv());
        assert(ledger_ok(old(self)@.ledgers[i as int]));
        let ghost old_state = self@;
        let mut l = Ledger::new();
        std::mem::swap(&mut self.ledgers[i], &mut l);
        proof {
            let target = old_state.with_ledger(id, EventLedger::empty());
            assert(self@.ledgers =~= target.ledgers);
            assert forall|j: int| 0 <= j < self.ledgers@.len() implies (
            #[trigger] self.ledgers@[j]).inv() by {
                if j != i {
                    assert(old(self).ledgers@[j].inv());
                }
            }
        }
        l
    }

    /// Pays out the escrow of a completed event to its organizer: returns
    /// the balance and sets it to zero. An empty escrow cannot be released.
    pub fn release_escrow(&mut self, organizer: Principal, id: u64) -> (r: Result<
        i128,
        LumentixError,
    >)
        requires
            old(self).wf(),
        ensures
            final(self).wf(),
            match r {
                Ok(amount) => old(self)@.release_error(id, organizer) is None && amount == old(
                    self,
                )@.ledger(id).escrow && final(self)@ == old(self)@.with_escrow(id, 0),
                Err(e) => old(self)@.release_error(id, organizer) == Some(e) && final(self)@
                    == old(self)@,
            },
    {
        let i = self.organizer_index(id, organizer)?;
        if self.events[i].status != EventStatus::Completed {
            return Err(LumentixError::InvalidStatusTransition);
        }
        assert(self.ledgers@[i as int].view() == self@.ledgers[i as int]);
        let balance = self.ledgers[i].escrow;
        if balance == 0 {
            return Err(LumentixError::EscrowAlreadyReleased);
        }
        let ghost old_state = self@;
        let mut l = self.take_ledger(id, i);
        l.escrow = 0;
        self.set_ledger(id, i, l);
        proof {
            assert(self@.ledgers =~= old_state.with_escrow(id, 0).ledgers);
        }
        Ok(balance)
    }

    /// Escrow balance of event `id`.
    pub fn get_escrow(&self, id: u64) -> (r: Result<i128, LumentixError>)
        requires
            self.wf(),
        ensures
            match r {
                Ok(b) => self@.has_event(id) && b == self@.ledger(id).escrow,
                Err(e) => !self@.has_event(id) && e == LumentixError::EventNotFound,
            },
    {
        match self.event_index(id) {
            None => Err(LumentixError::EventNotFound),
            Some(i) => {
                assert(self.ledgers@[i as int].view() == self@.ledgers[i as int]);
                Ok(self.ledgers[i].escrow)
            },
        }
    }

    /// Sets the platform fee, in basis points out of 10000; admin only.
    pub fn set_platform_fee(&mut self, admin: Principal, fee_bps: u32) -> (r: Result<
        (),
        LumentixError,
    >)
        requires
            old(self).wf(),
        ensures
            final(self).wf(),
            match r {
                Ok(_) => old(self)@.set_fee_error(admin, fee_bps) is None && final(self)@ == (
                ContractState { fee_bps: fee_bps as nat, ..old(self)@ }),
                Err(e) => old(self)@.set_fee_error(admin, fee_bps) == Some(e) && final(self)@
                    == old(self)@,
            },
    {
        if self.admin != Some(admin) {
            return Err(LumentixError::Unauthorized);
        }
        if fee_bps > 10000 {
            return Err(LumentixError::InvalidPlatformFee);
        }
        self.fee_bps = fee_bps;
        Ok(())
    }

    /// Number of events created so far; the last one has this id.
    pub fn event_count(&self) -> (r: usize)
        ensures
            r == self@.events.len(),
    {
        self.events.len()
    }

    /// Number of tickets sold so far; the last one has this id.
    pub fn ticket_count(&self) -> (r: usize)
        ensures
            r == self@.tickets.len(),
    {
        self.tickets.len()
    }

    /// The platform fee in basis points.
    pub fn get_platform_fee(&self) -> (r: u32)
        ensures
            r == self@.fee_bps,
    {
        self.fee_bps
    }

    /// Platform fees collected and not yet withdrawn.
    pub fn get_platform_balance(&self) -> (r: i128)
        ensures
            r == self@.platform_balance,
    {
        self.platform_balance
    }

    /// Withdraws every collected platform fee: returns the balance and sets
    /// it to zero; admin only.
    pub fn withdraw_platform_fees(&mut self, admin: Principal) -> (r: Result<i128, LumentixError>)
        requires
            old(self).wf(),
        ensures
            final(self).wf(),
            match r {
                Ok(amount) => old(self)@.withdraw_error(admin) is None && amount == old(
                    self,
                )@.platform_balance && final(self)@ == (ContractState {
                    platform_balance: 0,
                    ..old(self)@
                }),
                Err(e) => old(self)@.withdraw_error(admin) == Some(e) && final(self)@ == old(
                    self,
                )@,
            },
    {
        if self.admin != Some(admin) {
            return Err(LumentixError::Unauthorized);
        }
        let balance = self.platform_balance;
        if balance == 0 {
            return Err(LumentixError::NoPlatformFees);
        }
        self.platform_balance = 0;
        Ok(balance)
    }

    /// Lets `validator` check tickets in for event `id`; organizer only.
    pub fn add_validator(&mut self, caller: Principal, id: u64, validator: Principal) -> (r:
        Result<(), LumentixError>)
        requires
            old(self).wf(),
        ensures
            final(self).wf(),
            match r {
                Ok(_) => old(self)@.organizer_error(id, caller) is None && final(self)@ == old(
                    self,
                )@.after_set_validator(id, validator, true),
                Err(e) => old(self)@.organizer_error(id, caller) == Some(e) && final(self)@
                    == old(self)@,
            },
    {
        let i = self.organizer_index(id, caller)?;
        let ghost old_state = self@;
        let mut l = self.take_ledger(id, i);
        insert_principal(&mut l.validators, validator);
        self.set_ledger(id, i, l);
        proof {
            assert(self@.ledgers =~= old_state.after_set_validator(id, validator, true).ledgers);
        }
        Ok(())
    }

    /// Withdraws `validator`'s right to check tickets in for event `id`;
    /// organizer only.
    pub fn remove_validator(&mut self, caller: Principal, id: u64, validator: Principal) -> (r:
        Result<(), LumentixError>)
        requires
            old(self).wf(),
        ensures
            final(self).wf(),
            match r {
                Ok(_) => old(self)@.organizer_error(id, caller) is None && final(self)@ == old(
                    self,
                )@.after_set_validator(id, validator, false),
                Err(e) => old(self)@.organizer_error(id, caller) == Some(e) && final(self)@
                    == old(self)@,
            },
    {
        let i = self.organizer_index(id, caller)?;
        let ghost old_state = self@;
        let mut l = self.take_ledger(id, i);
        remove_principal(&mut l.validators, validator);
        self.set_ledger(id, i, l);
        proof {
            assert(self@.ledgers =~= old_state.after_set_validator(id, validator, false).ledgers);
        }
        Ok(())
    }
}

impl LumentixContract {
    /// Puts the release of event `id`'s escrow under a signer threshold:
    /// `threshold` of the distinct `signers` must approve. Organizer only.
    /// Approvals of an earlier policy are dropped.
    pub fn set_escrow_signers(
        &mut self,
        caller: Principal,
        id: u64,
        signers: Vec<Principal>,
        threshold: u32,
    ) -> (r: Result<(), LumentixError>)
        requires
            old(self).wf(),
        ensures
            final(self).wf(),
            match r {
                Ok(_) => old(self)@.set_signers_error(id, caller, signers@, threshold) is None
                    && final(self)@ == old(self)@.after_set_signers(id, signers@, threshold),
                Err(e) => old(self)@.set_signers_error(id, caller, signers@, threshold) == Some(e)
                    && final(self)@ == old(self)@,
            },
    {
        let i = self.organizer_index(id, caller)?;
        let distinct = distinct_principals(&signers);
        if threshold == 0 || threshold as usize > distinct.len() {
            return Err(LumentixError::InvalidThreshold);
        }
        let ghost old_state = self@;
        let mut l = self.take_ledger(id, i);
        l.signers = distinct;
        l.threshold = threshold;
        l.approvals = Vec::new();
        proof {
            assert(l.approvals@.to_set() =~= Set::empty());
            l.signers@.unique_seq_to_set();
            assert(l.signers@.to_set().contains(l.signers@[0]));
        }
        self.set_ledger(id, i, l);
        proof {
            assert(self@.ledgers =~= old_state.after_set_signers(id, signers@, threshold).ledgers);
        }
        Ok(())
    }

    /// Records `signer`'s approval to release event `id`'s escrow; approving
    /// twice changes nothing.
    pub fn approve_release(&mut self, id: u64, signer: Principal) -> (r: Result<(), LumentixError>)
        requires
            old(self).wf(),
        ensures
            final(self).wf(),
            match r {
                Ok(_) => old(self)@.approve_error(id, signer) is None && final(self)@ == old(
                    self,
                )@.with_approvals(id, old(self)@.ledger(id).approvals.insert(signer)),
                Err(e) => old(self)@.approve_error(id, signer) == Some(e) && final(self)@ == old(
                    self,
                )@,
            },
    {
        let i = match self.event_index(id) {
            None => {
                return Err(LumentixError::EventNotFound);
            },
            Some(i) => i,
        };
        assert(self.ledgers@[i as int].view() == self@.ledgers[i as int]);
        if self.ledgers[i].threshold == 0 {
            return Err(LumentixError::EscrowNotConfigured);
        }
        if !contains_principal(&self.ledgers[i].signers, signer) {
            return Err(LumentixError::Unauthorized);
        }
        let ghost old_state = self@;
        let mut l = self.take_ledger(id, i);
        insert_principal(&mut l.approvals, signer);
        self.set_ledger(id, i, l);
        proof {
            assert(self@.ledgers =~= old_state.with_approvals(
                id,
                old_state.ledger(id).approvals.insert(signer),
            ).ledgers);
        }
        Ok(())
    }

    /// Withdraws `signer`'s approval for event `id`, if it was given.
    pub fn revoke_approval(&mut self, id: u64, signer: Principal) -> (r: Result<(), LumentixError>)
        requires
            old(self).wf(),
        ensures
            final(self).wf(),
            match r {
                Ok(_) => old(self)@.has_event(id) && final(self)@ == old(self)@.with_approvals(
                    id,
                    old(self)@.ledger(id).approvals.remove(signer),
                ),
                Err(e) => !old(self)@.has_event(id) && e == LumentixError::EventNotFound
                    && final(self)@ == old(self)@,
            },
    {
        let i = match self.event_index(id) {
            None => {
                return Err(LumentixError::EventNotFound);
            },
            Some(i) => i,
        };
        let ghost old_state = self@;
        let mut l = self.take_ledger(id, i);
        remove_principal(&mut l.approvals, signer);
        self.set_ledger(id, i, l);
        proof {
            assert(self@.ledgers =~= old_state.with_approvals(
                id,
                old_state.ledger(id).approvals.remove(signer),
            ).ledgers);
        }
        Ok(())
    }

    /// Releases event `id`'s escrow to `destination` once enough configured
    /// signers approve: the escrow is emptied and every approval cleared, so
    /// a later release needs a fresh round.
    pub fn distribute_escrow(&mut self, id: u64, destination: Principal) -> (r: Result<
        Payout,
        LumentixError,
    >)
        requires
            old(self).wf(),
        ensures
            final(self).wf(),
            match r {
                Ok(p) => old(self)@.distribute_error(id) is None && p == (Payout {
                    recipient: destination,
                    amount: old(self)@.ledger(id).escrow as i128,
                }) && final(self)@ == old(self)@.after_distribute(id),
                Err(e) => old(self)@.distribute_error(id) == Some(e) && final(self)@ == old(
                    self,
                )@,
            },
    {
        let i = match self.event_index(id) {
            None => {
                return Err(LumentixError::EventNotFound);
            },
            Some(i) => i,
        };
        let ghost lv = self@.ledgers[i as int];
        assert(self.ledgers@[i as int].view() == lv);
        assert(self.ledgers@[i as int].inv());
        assert(ledger_ok(lv));
        if self.ledgers[i].threshold == 0 {
            return Err(LumentixError::EscrowNotConfigured);
        }
        proof {
            assert(lv.approvals.intersect(lv.signers) =~= lv.approvals);
            self.ledgers@[i as int].approvals@.unique_seq_to_set();
        }
        if self.ledgers[i].approvals.len() < self.ledgers[i].threshold as usize {
            return Err(LumentixError::ThresholdNotMet);
        }
        let ghost old_state = self@;
        let mut l = self.take_ledger(id, i);
        let amount = l.escrow;
        l.escrow = 0;
        l.approvals = Vec::new();
        assert(l.approvals@.to_set() =~= Set::empty());
        self.set_ledger(id, i, l);
        proof {
            assert(self@.ledgers =~= old_state.after_distribute(id).ledgers);
        }
        Ok(Payout { recipient: destination, amount })
    }
}

} // verus!
