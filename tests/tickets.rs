use lumentix::{EventStatus, LumentixContract, LumentixError, Principal, TransferEvent};

fn principal(id: u64) -> Principal {
    Principal { id }
}

/// A platform with one published event of the given price and capacity,
/// organized by principal 1 and ending at time 2000.
fn published(price: i128, capacity: u32) -> (LumentixContract, Principal, u64) {
    let mut c = LumentixContract::new();
    let organizer = principal(1);
    let id = c
        .create_event(
            organizer,
            "Gala".to_string(),
            "Annual gala".to_string(),
            "Ballroom".to_string(),
            1000,
            2000,
            price,
            capacity,
        )
        .unwrap();
    c.update_event_status(id, EventStatus::Published, organizer, 0).unwrap();
    (c, organizer, id)
}

#[test]
fn test_issue_ticket() {
    let (mut c, _, event_id) = published(100, 5);
    let owner = principal(20);
    let tid = c.purchase_ticket(owner, event_id, 100, 42).unwrap();
    let ticket = c.get_ticket_info(tid).unwrap();
    assert_eq!(ticket.id, tid);
    assert_eq!(ticket.event_id, event_id);
    assert_eq!(ticket.owner, owner);
    assert!(!ticket.used);
    assert!(!ticket.refunded);
    assert_eq!(ticket.purchase_time, 42);
}

#[test]
fn test_get_ticket_existing() {
    let (mut c, _, event_id) = published(100, 5);
    let tid = c.purchase_ticket(principal(21), event_id, 100, 1).unwrap();
    assert!(c.get_ticket_info(tid).is_ok());
    assert_eq!(c.get_ticket_info(tid + 1), Err(LumentixError::TicketNotFound));
    assert_eq!(c.get_ticket_info(0), Err(LumentixError::TicketNotFound));
}

#[test]
fn test_transfer_unauthorized() {
    let (mut c, _, event_id) = published(100, 5);
    let owner = principal(30);
    let attacker = principal(31);
    let tid = c.purchase_ticket(owner, event_id, 100, 1).unwrap();
    assert_eq!(c.transfer_ticket(tid, attacker, owner), Err(LumentixError::Unauthorized));
    assert_eq!(c.get_ticket_info(tid).unwrap().owner, owner);
}

#[test]
fn transfer_moves_ownership_and_reports_it() {
    let (mut c, organizer, event_id) = published(100, 5);
    let a = principal(40);
    let b = principal(41);
    let tid = c.purchase_ticket(a, event_id, 100, 1).unwrap();
    assert_eq!(
        c.transfer_ticket(tid, a, b),
        Ok(TransferEvent { ticket_id: tid, from: a, to: b })
    );
    assert_eq!(c.get_ticket_info(tid).unwrap().owner, b);
    // A used ticket can no longer change hands.
    c.use_ticket(tid, organizer).unwrap();
    assert_eq!(c.transfer_ticket(tid, b, a), Err(LumentixError::TicketAlreadyUsed));
    assert_eq!(c.transfer_ticket(99, b, a), Err(LumentixError::TicketNotFound));
}

#[test]
fn capacity_two_third_purchase_sold_out() {
    let (mut c, _, id) = published(100, 2);
    assert_eq!(c.purchase_ticket(principal(2), id, 100, 1), Ok(1));
    assert_eq!(c.purchase_ticket(principal(3), id, 100, 1), Ok(2));
    assert_eq!(c.purchase_ticket(principal(4), id, 100, 1), Err(LumentixError::EventSoldOut));
    let e = c.get_event(id).unwrap();
    assert_eq!(e.tickets_sold, 2);
    assert!(e.tickets_sold <= e.max_tickets);
    assert_eq!(c.get_availability(id), Ok(0));
}

#[test]
fn underpayment_is_insufficient_funds() {
    let (mut c, _, id) = published(100, 2);
    assert_eq!(c.purchase_ticket(principal(2), id, 50, 1), Err(LumentixError::InsufficientFunds));
    assert_eq!(c.get_event(id).unwrap().tickets_sold, 0);
    assert_eq!(c.get_escrow(id), Ok(0));
}

#[test]
fn purchase_needs_published_event() {
    let mut c = LumentixContract::new();
    let o = principal(1);
    let id = c
        .create_event(o, "a".to_string(), "b".to_string(), "c".to_string(), 1, 2, 10, 3)
        .unwrap();
    assert_eq!(
        c.purchase_ticket(principal(2), id, 10, 0),
        Err(LumentixError::InvalidStatusTransition)
    );
    assert_eq!(c.purchase_ticket(principal(2), id + 1, 10, 0), Err(LumentixError::EventNotFound));
}

#[test]
fn purchase_splits_fee_and_escrow() {
    let (mut c, _, id) = published(100, 10);
    let admin = principal(9);
    c.initialize(admin).unwrap();
    c.set_platform_fee(admin, 250).unwrap();
    // 2.5% of 1000 is 25.
    c.purchase_ticket(principal(2), id, 1000, 1).unwrap();
    assert_eq!(c.get_platform_balance(), 25);
    assert_eq!(c.get_escrow(id), Ok(975));
    // 2.5% of 101 is 2.525, rounded down to 2.
    c.purchase_ticket(principal(3), id, 101, 1).unwrap();
    assert_eq!(c.get_platform_balance(), 27);
    assert_eq!(c.get_escrow(id), Ok(975 + 99));
    assert_eq!(c.get_event(id).unwrap().tickets_sold, 2);
}

#[test]
fn purchase_raises_sold_count_by_one() {
    let (mut c, _, id) = published(10, 3);
    for n in 0..3u32 {
        assert_eq!(c.get_event(id).unwrap().tickets_sold, n);
        c.purchase_ticket(principal(50 + n as u64), id, 10, 0).unwrap();
        assert_eq!(c.get_event(id).unwrap().tickets_sold, n + 1);
        assert_eq!(c.get_escrow(id), Ok(10 * (n as i128 + 1)));
    }
}

#[test]
fn cancel_then_refund_once() {
    let (mut c, organizer, id) = published(100, 5);
    let buyer = principal(2);
    let tid = c.purchase_ticket(buyer, id, 100, 1).unwrap();
    c.purchase_ticket(principal(3), id, 100, 1).unwrap();
    assert_eq!(c.refund_ticket(tid, buyer), Err(LumentixError::EventNotCancelled));
    c.cancel_event(organizer, id).unwrap();
    let before = c.get_escrow(id).unwrap();
    assert_eq!(c.refund_ticket(tid, principal(3)), Err(LumentixError::Unauthorized));
    assert_eq!(c.refund_ticket(tid, buyer), Ok(()));
    assert_eq!(c.get_escrow(id).unwrap(), before - 100);
    assert!(c.get_ticket_info(tid).unwrap().refunded);
    assert_eq!(c.get_event(id).unwrap().tickets_sold, 1);
    assert_eq!(c.refund_ticket(tid, buyer), Err(LumentixError::RefundNotAllowed));
    assert_eq!(c.get_escrow(id).unwrap(), before - 100);
}

#[test]
fn used_ticket_cannot_be_refunded() {
    let (mut c, organizer, id) = published(100, 5);
    let buyer = principal(2);
    let tid = c.purchase_ticket(buyer, id, 100, 1).unwrap();
    c.use_ticket(tid, organizer).unwrap();
    c.cancel_event(organizer, id).unwrap();
    assert_eq!(c.refund_ticket(tid, buyer), Err(LumentixError::TicketAlreadyUsed));
    let t = c.get_ticket_info(tid).unwrap();
    assert!(t.used && !t.refunded);
}

#[test]
fn refunded_ticket_cannot_be_used() {
    let (mut c, organizer, id) = published(100, 5);
    let buyer = principal(2);
    let tid = c.purchase_ticket(buyer, id, 100, 1).unwrap();
    c.cancel_event(organizer, id).unwrap();
    c.refund_ticket(tid, buyer).unwrap();
    assert_eq!(c.use_ticket(tid, organizer), Err(LumentixError::TicketRefunded));
    let t = c.get_ticket_info(tid).unwrap();
    assert!(t.refunded && !t.used);
}

#[test]
fn refund_with_short_escrow_fails() {
    // With the whole fee taken, escrow cannot cover the ticket price.
    let (mut c, organizer, id) = published(100, 5);
    let admin = principal(9);
    c.initialize(admin).unwrap();
    c.set_platform_fee(admin, 10000).unwrap();
    let buyer = principal(2);
    let tid = c.purchase_ticket(buyer, id, 100, 1).unwrap();
    assert_eq!(c.get_escrow(id), Ok(0));
    c.cancel_event(organizer, id).unwrap();
    assert_eq!(c.refund_ticket(tid, buyer), Err(LumentixError::InsufficientEscrow));
    assert!(!c.get_ticket_info(tid).unwrap().refunded);
}

#[test]
fn test_init_event() {
    let (c, organizer, id) = published(100, 5);
    assert!(c.is_authorized_validator(id, organizer));
}

#[test]
fn test_add_validator() {
    let (mut c, organizer, id) = published(100, 5);
    let validator = principal(60);
    c.add_validator(organizer, id, validator).unwrap();
    assert!(c.is_authorized_validator(id, validator));
}

#[test]
fn test_remove_validator() {
    let (mut c, organizer, id) = published(100, 5);
    let validator = principal(61);
    c.add_validator(organizer, id, validator).unwrap();
    c.remove_validator(organizer, id, validator).unwrap();
    assert!(!c.is_authorized_validator(id, validator));
}

#[test]
fn test_is_authorized_validator_organizer() {
    let (c, organizer, id) = published(100, 5);
    assert!(c.is_authorized_validator(id, organizer));
}

#[test]
fn test_is_authorized_validator_unauthorized() {
    let (c, _, id) = published(100, 5);
    assert!(!c.is_authorized_validator(id, principal(62)));
    assert!(!c.is_authorized_validator(id + 1, principal(1)));
}

#[test]
fn test_validate_ticket_success() {
    let (mut c, organizer, id) = published(100, 5);
    let tid = c.purchase_ticket(principal(63), id, 100, 1).unwrap();
    assert_eq!(c.use_ticket(tid, organizer), Ok(()));
    let t = c.get_ticket_info(tid).unwrap();
    assert!(t.used);
    assert_eq!(t.id, tid);
}

#[test]
fn test_validate_ticket_with_gate_agent() {
    let (mut c, organizer, id) = published(100, 5);
    let gate_agent = principal(64);
    c.add_validator(organizer, id, gate_agent).unwrap();
    let tid = c.purchase_ticket(principal(65), id, 100, 1).unwrap();
    assert_eq!(c.use_ticket(tid, gate_agent), Ok(()));
    assert!(c.get_ticket_info(tid).unwrap().used);
}

#[test]
fn test_validate_nonexistent_ticket() {
    let (mut c, organizer, _) = published(100, 5);
    assert_eq!(c.use_ticket(5, organizer), Err(LumentixError::TicketNotFound));
}

#[test]
fn test_validate_ticket_already_used() {
    let (mut c, organizer, id) = published(100, 5);
    let tid = c.purchase_ticket(principal(66), id, 100, 1).unwrap();
    assert_eq!(c.use_ticket(tid, organizer), Ok(()));
    assert_eq!(c.use_ticket(tid, organizer), Err(LumentixError::TicketAlreadyUsed));
}

#[test]
fn test_validate_ticket_unauthorized_validator() {
    let (mut c, _, id) = published(100, 5);
    let tid = c.purchase_ticket(principal(67), id, 100, 1).unwrap();
    assert_eq!(c.use_ticket(tid, principal(68)), Err(LumentixError::Unauthorized));
    assert!(!c.get_ticket_info(tid).unwrap().used);
}

#[test]
fn test_validate_ticket_emits_event() {
    let (mut c, organizer, id) = published(100, 5);
    let tid = c.purchase_ticket(principal(69), id, 100, 1).unwrap();
    assert_eq!(c.use_ticket(tid, organizer), Ok(()));
    let t = c.get_ticket_info(tid).unwrap();
    assert!(t.used);
    assert_eq!(t.id, tid);
}

#[test]
fn test_multiple_validators_for_event() {
    let (mut c, organizer, id) = published(100, 5);
    let v1 = principal(70);
    let v2 = principal(71);
    c.add_validator(organizer, id, v1).unwrap();
    c.add_validator(organizer, id, v2).unwrap();
    assert!(c.is_authorized_validator(id, v1));
    assert!(c.is_authorized_validator(id, v2));
}

#[test]
fn validator_changes_are_organizer_only_and_idempotent() {
    let (mut c, organizer, id) = published(100, 5);
    let v = principal(72);
    assert_eq!(c.add_validator(v, id, v), Err(LumentixError::Unauthorized));
    assert_eq!(c.add_validator(organizer, id + 1, v), Err(LumentixError::EventNotFound));
    c.add_validator(organizer, id, v).unwrap();
    c.add_validator(organizer, id, v).unwrap();
    c.remove_validator(organizer, id, v).unwrap();
    assert!(!c.is_authorized_validator(id, v));
    assert_eq!(c.remove_validator(organizer, id, v), Ok(()));
    assert_eq!(c.remove_validator(v, id, v), Err(LumentixError::Unauthorized));
}
