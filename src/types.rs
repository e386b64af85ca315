use vstd::prelude::*;

verus! {

/// Identity of an account taking part in the platform (admin, organizer,
/// ticket owner, validator or signer). The host authenticates callers; the
/// library only compares identities.
#[derive(Clone, Copy, Debug, PartialEq, Eq, Structural, Hash)]
pub struct Principal {
    pub id: u64,
}

/// Lifecycle of an event.
#[derive(Clone, Copy, Debug, PartialEq, Eq, Structural)]
pub enum EventStatus {
    Draft,
    Published,
    Cancelled,
    Completed,
}

/// Every way an operation can fail. A failed operation leaves the state as it was.
#[derive(Clone, Copy, Debug, PartialEq, Eq, Structural)]
pub enum LumentixError {
    AlreadyInitialized,
    EventNotFound,
    TicketNotFound,
    Unauthorized,
    InvalidStatusTransition,
    EventSoldOut,
    InsufficientFunds,
    TicketAlreadyUsed,
    RefundNotAllowed,
    EventNotCancelled,
    InsufficientEscrow,
    EscrowAlreadyReleased,
    InvalidPlatformFee,
    NoPlatformFees,
    ThresholdNotMet,
    InvalidThreshold,
    EscrowNotConfigured,
    TicketRefunded,
    EmptyString,
    InvalidAmount,
    InvalidCapacity,
    InvalidTimeRange,
}

/// An event record.
#[derive(Debug)]
pub struct Event {
    pub id: u64,
    pub organizer: Principal,
    pub name: String,
    pub description: String,
    pub location: String,
    pub start_time: u64,
    pub end_time: u64,
    pub ticket_price: i128,
    pub max_tickets: u32,
    pub tickets_sold: u32,
    pub status: EventStatus,
}

impl Clone for Event {
    fn clone(&self) -> (r: Self)
        ensures
            r == *self,
    {
        Event {
            id: self.id,
            organizer: self.organizer,
            name: self.name.clone(),
            description: self.description.clone(),
            location: self.location.clone(),
            start_time: self.start_time,
            end_time: self.end_time,
            ticket_price: self.ticket_price,
            max_tickets: self.max_tickets,
            tickets_sold: self.tickets_sold,
            status: self.status,
        }
    }
}

/// A ticket record.
#[derive(Clone, Copy, Debug, PartialEq, Eq, Structural)]
pub struct Ticket {
    pub id: u64,
    pub event_id: u64,
    pub owner: Principal,
    pub purchase_time: u64,
    pub used: bool,
    pub refunded: bool,
}

/// Record of a ticket changing hands, for the host to publish.
#[derive(Clone, Copy, Debug, PartialEq, Eq, Structural)]
pub struct TransferEvent {
    pub ticket_id: u64,
    pub from: Principal,
    pub to: Principal,
}

/// Funds that a jointly approved release makes owed to `recipient`; moving
/// them is the host's part.
#[derive(Clone, Copy, Debug, PartialEq, Eq, Structural)]
pub struct Payout {
    pub recipient: Principal,
    pub amount: i128,
}

} // verus!
